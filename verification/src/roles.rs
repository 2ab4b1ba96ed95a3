//! Staff roles: their codes, labels and parsing.

use vstd::prelude::*;
use crate::text::{
    chars_of, str_eq, string_of, to_lowercase, trim_seq, trim_str,
    lowercase_text, is_ascii_text, ascii_lower, ascii_lower_char, is_ws,
    lemma_trim_seq_shape, lemma_trim_seq_fixed,
};

verus! {

/// A staff role; each role unlocks its own set of actions.
#[derive(Clone, Copy, Debug, PartialEq, Eq, Structural, Hash)]
pub enum UserRole {
    Owner,
    Cashier,
    Chef,
    Warehouse,
}

impl UserRole {
    /// The role's code, as stored and exchanged.
    pub open spec fn code(self) -> Seq<char> {
        match self {
            UserRole::Owner => "owner"@,
            UserRole::Cashier => "cashier"@,
            UserRole::Chef => "chef"@,
            UserRole::Warehouse => "warehouse"@,
        }
    }

    /// The role's display label.
    pub open spec fn label_text(self) -> Seq<char> {
        match self {
            UserRole::Owner => "老板"@,
            UserRole::Cashier => "收银"@,
            UserRole::Chef => "厨师"@,
            UserRole::Warehouse => "仓库"@,
        }
    }

    /// The role's code, as stored and exchanged.
    pub fn as_str(&self) -> (res: &'static str)
        ensures
            res@ == self.code(),
    {
        match self {
            UserRole::Owner => "owner",
            UserRole::Cashier => "cashier",
            UserRole::Chef => "chef",
            UserRole::Warehouse => "warehouse",
        }
    }

    /// The role's display label.
    pub fn label(&self) -> (res: &'static str)
        ensures
            res@ == self.label_text(),
    {
        match self {
            UserRole::Owner => "老板",
            UserRole::Cashier => "收银",
            UserRole::Chef => "厨师",
            UserRole::Warehouse => "仓库",
        }
    }

    /// The role whose code is `value`, ignoring surrounding white space and
    /// letter case.
    pub open spec fn parse_spec(value: Seq<char>) -> Option<UserRole> {
        let key = lowercase_text(trim_seq(value));
        if key == "owner"@ {
            Some(UserRole::Owner)
        } else if key == "cashier"@ {
            Some(UserRole::Cashier)
        } else if key == "chef"@ {
            Some(UserRole::Chef)
        } else if key == "warehouse"@ {
            Some(UserRole::Warehouse)
        } else {
            None
        }
    }

    /// Parses a role code, ignoring surrounding white space and letter case.
    pub fn parse(value: &str) -> (res: Result<UserRole, String>)
        ensures
            match res {
                Ok(role) => UserRole::parse_spec(value@) == Some(role)
                    && lowercase_text(trim_seq(value@)) == role.code(),
                Err(msg) => {
                    &&& UserRole::parse_spec(value@) is None
                    &&& forall|r: UserRole| lowercase_text(trim_seq(value@)) != r.code()
                    &&& msg@ == "未知角色"@
                },
            },
    {
        let trimmed = trim_str(value);
        let lowered = to_lowercase(trimmed.as_str());
        let key = lowered.as_str();
        if str_eq(key, "owner") {
            Ok(UserRole::Owner)
        } else if str_eq(key, "cashier") {
            Ok(UserRole::Cashier)
        } else if str_eq(key, "chef") {
            Ok(UserRole::Chef)
        } else if str_eq(key, "warehouse") {
            Ok(UserRole::Warehouse)
        } else {
            assert forall|r: UserRole| lowercase_text(trim_seq(value@)) != r.code() by {
                match r {
                    UserRole::Owner => {},
                    UserRole::Cashier => {},
                    UserRole::Chef => {},
                    UserRole::Warehouse => {},
                }
            }
            Err(string_of(&chars_of("未知角色")))
        }
    }
}

impl std::str::FromStr for UserRole {
    type Err = String;

    fn from_str(value: &str) -> (res: Result<Self, Self::Err>)
        ensures
            match res {
                Ok(role) => UserRole::parse_spec(value@) == Some(role),
                Err(msg) => UserRole::parse_spec(value@) is None && msg@ == "未知角色"@,
            },
    {
        UserRole::parse(value)
    }
}

/// Every role's code parses back to that role.
pub proof fn law_role_code_round_trip(r: UserRole)
    ensures
        UserRole::parse_spec(r.code()) == Some(r),
{
    reveal_strlit("owner");
    reveal_strlit("cashier");
    reveal_strlit("chef");
    reveal_strlit("warehouse");
    let c = r.code();
    lemma_trim_seq_fixed(c);
    assert(ascii_lower(c) =~= c);
}

/// For ASCII text, parsing a role ignores surrounding white space and the case of
/// letters: the text parses as its trimmed, lower-cased form does.
pub proof fn law_role_parse_normalised(s: Seq<char>)
    requires
        is_ascii_text(s),
    ensures
        UserRole::parse_spec(s) == UserRole::parse_spec(ascii_lower(trim_seq(s))),
{
    let t = trim_seq(s);
    lemma_trim_seq_shape(s);
    let (i, j) = choose|i: int, j: int| 0 <= i <= j <= s.len() && t == #[trigger] s.subrange(i, j);
    assert(is_ascii_text(t)) by {
        assert forall|k: int| 0 <= k < t.len() implies (#[trigger] t[k] as u32) < 128 by {
            assert(t[k] == s[i + k]);
        }
    }
    let l = ascii_lower(t);
    assert forall|k: int| 0 <= k < l.len() implies #[trigger] is_ws(l[k]) == is_ws(t[k]) && (l[k] as u32) < 128 by {
        assert(l[k] == ascii_lower_char(t[k]));
    }
    if l.len() > 0 {
        assert(is_ws(l[0]) == is_ws(t[0]));
        assert(is_ws(l.last()) == is_ws(t.last()));
    }
    lemma_trim_seq_fixed(l);
    assert(is_ascii_text(l));
    assert(ascii_lower(l) =~= l);
}

} // verus!

//! The role/PIN store and the role-switching and permission rules.

use vstd::prelude::*;
use vstd::utf8::encode_utf8;
use crate::pinhash::{argon2_accepts, hash_pin, pin_matches, verify_pin};
use crate::roles::UserRole;
use crate::text::{owned, chars_of, push_str_chars, seq_starts_with, str_eq, string_of, trim_seq, trim_str};

verus! {

/// Who is signed in, the PIN digest configured for each role (keyed by role
/// code), and whether self-orders must carry a signed table token.
pub struct RoleAuthStore {
    pub current_role: UserRole,
    pub pin_hashes: Vec<(String, String)>,
    pub require_token: bool,
}

/// Whether the entries hold a PIN for the role code `key`.
pub open spec fn has_key(entries: Seq<(String, String)>, key: Seq<char>) -> bool {
    exists|i: int| 0 <= i < entries.len() && #[trigger] entries[i].0@ == key
}

/// The digest stored for `key`, if any.
pub open spec fn pin_lookup(entries: Seq<(String, String)>, key: Seq<char>) -> Option<Seq<char>> {
    if has_key(entries, key) {
        Some(entries[choose|i: int| 0 <= i < entries.len() && #[trigger] entries[i].0@ == key].1@)
    } else {
        None
    }
}

/// No role code occurs twice among the entries.
pub open spec fn keys_unique(entries: Seq<(String, String)>) -> bool {
    forall|i: int, j: int|
        0 <= i < entries.len() && 0 <= j < entries.len() && i != j ==> #[trigger] entries[i].0@
            != #[trigger] entries[j].0@
}

/// With unique keys, the entry at any index holding `key` is the one looked up.
pub proof fn lemma_lookup_at(entries: Seq<(String, String)>, key: Seq<char>, i: int)
    requires
        keys_unique(entries),
        0 <= i < entries.len(),
        entries[i].0@ == key,
    ensures
        pin_lookup(entries, key) == Some(entries[i].1@),
{
    let k = choose|k: int| 0 <= k < entries.len() && #[trigger] entries[k].0@ == key;
    assert(entries[k].0@ == key);
}

impl RoleAuthStore {
    /// Role codes are unique among the stored PINs.
    pub open spec fn wf(&self) -> bool {
        keys_unique(self.pin_hashes@)
    }

    /// The digest stored for `role`, if any.
    pub open spec fn pin_of(&self, role: UserRole) -> Option<Seq<char>> {
        pin_lookup(self.pin_hashes@, role.code())
    }

    /// Index of the entry for `key`, if any.
    fn find_key(&self, key: &str) -> (res: Option<usize>)
        ensures
            match res {
                Some(i) => i < self.pin_hashes@.len() && self.pin_hashes@[i as int].0@ == key@,
                None => !has_key(self.pin_hashes@, key@),
            },
    {
        let mut i: usize = 0;
        while i < self.pin_hashes.len()
            invariant
                i <= self.pin_hashes.len(),
                forall|j: int| 0 <= j < i ==> #[trigger] self.pin_hashes@[j].0@ != key@,
            decreases self.pin_hashes.len() - i,
        {
            if str_eq(self.pin_hashes[i].0.as_str(), key) {
                return Some(i);
            }
            i = i + 1;
        }
        None
    }

    /// The digest stored for `role`, if any.
    pub fn get_pin(&self, role: UserRole) -> (res: Option<&String>)
        requires
            self.wf(),
        ensures
            match res {
                Some(h) => self.pin_of(role) == Some(h@),
                None => self.pin_of(role) is None,
            },
    {
        match self.find_key(role.as_str()) {
            Some(i) => {
                proof {
                    lemma_lookup_at(self.pin_hashes@, role.code(), i as int);
                }
                Some(&self.pin_hashes[i].1)
            },
            None => None,
        }
    }

    /// Stores `hash` as the digest for `role`, replacing any earlier one.
    pub fn put_pin(&mut self, role: UserRole, hash: String)
        requires
            old(self).wf(),
        ensures
            final(self).wf(),
            final(self).pin_of(role) == Some(hash@),
            forall|k: Seq<char>|
                k != role.code() ==> pin_lookup(final(self).pin_hashes@, k) == pin_lookup(
                    old(self).pin_hashes@,
                    k,
                ),
            final(self).current_role == old(self).current_role,
            final(self).require_token == old(self).require_token,
    {
        let key = string_of(&chars_of(role.as_str()));
        let ghost old_entries = self.pin_hashes@;
        match self.find_key(role.as_str()) {
            Some(i) => {
                self.pin_hashes.set(i, (key, hash));
                let ghost new_entries = self.pin_hashes@;
                assert(keys_unique(new_entries)) by {
                    assert forall|a: int, b: int|
                        0 <= a < new_entries.len() && 0 <= b < new_entries.len() && a != b
                            implies #[trigger] new_entries[a].0@ != #[trigger] new_entries[b].0@ by {
                        if a != i as int && b != i as int {
                            assert(old_entries[a].0@ != old_entries[b].0@);
                        } else if a == i as int {
                            assert(old_entries[i as int].0@ != old_entries[b].0@);
                        } else {
                            assert(old_entries[a].0@ != old_entries[i as int].0@);
                        }
                    }
                }
                proof {
                    lemma_lookup_at(new_entries, role.code(), i as int);
                    assert forall|k: Seq<char>| k != role.code() implies pin_lookup(new_entries, k)
                        == pin_lookup(old_entries, k) by {
                        if has_key(old_entries, k) {
                            let j = choose|j: int| 0 <= j < old_entries.len() && #[trigger] old_entries[j].0@ == k;
                            assert(j != i as int);
                            assert(new_entries[j] == old_entries[j]);
                            lemma_lookup_at(old_entries, k, j);
                            lemma_lookup_at(new_entries, k, j);
                        } else {
                            assert(!has_key(new_entries, k)) by {
                                if has_key(new_entries, k) {
                                    let j = choose|j: int| 0 <= j < new_entries.len() && #[trigger] new_entries[j].0@ == k;
                                    assert(old_entries[j].0@ == k);
                                }
                            }
                        }
                    }
                }
            },
            None => {
                self.pin_hashes.push((key, hash));
                let ghost new_entries = self.pin_hashes@;
                let ghost n = old_entries.len() as int;
                assert(keys_unique(new_entries)) by {
                    assert forall|a: int, b: int|
                        0 <= a < new_entries.len() && 0 <= b < new_entries.len() && a != b
                            implies #[trigger] new_entries[a].0@ != #[trigger] new_entries[b].0@ by {
                        if a != n && b != n {
                            assert(old_entries[a].0@ != old_entries[b].0@);
                        } else if a == n {
                            assert(old_entries[b].0@ != role.code());
                        } else {
                            assert(old_entries[a].0@ != role.code());
                        }
                    }
                }
                proof {
                    lemma_lookup_at(new_entries, role.code(), n);
                    assert forall|k: Seq<char>| k != role.code() implies pin_lookup(new_entries, k)
                        == pin_lookup(old_entries, k) by {
                        if has_key(old_entries, k) {
                            let j = choose|j: int| 0 <= j < old_entries.len() && #[trigger] old_entries[j].0@ == k;
                            assert(new_entries[j] == old_entries[j]);
                            lemma_lookup_at(old_entries, k, j);
                            lemma_lookup_at(new_entries, k, j);
                        } else {
                            assert(!has_key(new_entries, k)) by {
                                if has_key(new_entries, k) {
                                    let j = choose|j: int| 0 <= j < new_entries.len() && #[trigger] new_entries[j].0@ == k;
                                    assert(j != n);
                                    assert(old_entries[j].0@ == k);
                                }
                            }
                        }
                    }
                }
            },
        }
    }

    /// Removes the digest stored for `role`, if any.
    pub fn clear_pin(&mut self, role: UserRole)
        requires
            old(self).wf(),
        ensures
            final(self).wf(),
            final(self).pin_of(role) is None,
            forall|k: Seq<char>|
                k != role.code() ==> pin_lookup(final(self).pin_hashes@, k) == pin_lookup(
                    old(self).pin_hashes@,
                    k,
                ),
            final(self).current_role == old(self).current_role,
            final(self).require_token == old(self).require_token,
    {
        let ghost old_entries = self.pin_hashes@;
        match self.find_key(role.as_str()) {
            Some(i) => {
                let _ = self.pin_hashes.remove(i);
                let ghost new_entries = self.pin_hashes@;
                let ghost ii = i as int;
                assert(forall|j: int| 0 <= j < new_entries.len() ==> #[trigger] new_entries[j] == if j < ii { old_entries[j] } else { old_entries[j + 1] });
                assert(keys_unique(new_entries)) by {
                    assert forall|a: int, b: int|
                        0 <= a < new_entries.len() && 0 <= b < new_entries.len() && a != b
                            implies #[trigger] new_entries[a].0@ != #[trigger] new_entries[b].0@ by {
                        let oa = if a < ii { a } else { a + 1 };
                        let ob = if b < ii { b } else { b + 1 };
                        assert(old_entries[oa].0@ != old_entries[ob].0@);
                    }
                }
                assert(!has_key(new_entries, role.code())) by {
                    if has_key(new_entries, role.code()) {
                        let j = choose|j: int| 0 <= j < new_entries.len() && #[trigger] new_entries[j].0@ == role.code();
                        let oj = if j < ii { j } else { j + 1 };
                        assert(old_entries[oj].0@ != old_entries[ii].0@);
                    }
                }
                proof {
                    assert forall|k: Seq<char>| k != role.code() implies pin_lookup(new_entries, k)
                        == pin_lookup(old_entries, k) by {
                        if has_key(old_entries, k) {
                            let j = choose|j: int| 0 <= j < old_entries.len() && #[trigger] old_entries[j].0@ == k;
                            assert(j != ii);
                            let nj = if j < ii { j } else { j - 1 };
                            assert(new_entries[nj] == old_entries[j]);
                            lemma_lookup_at(old_entries, k, j);
                            lemma_lookup_at(new_entries, k, nj);
                        } else {
                            assert(!has_key(new_entries, k)) by {
                                if has_key(new_entries, k) {
                                    let j = choose|j: int| 0 <= j < new_entries.len() && #[trigger] new_entries[j].0@ == k;
                                    let oj = if j < ii { j } else { j + 1 };
                                    assert(old_entries[oj].0@ == k);
                                }
                            }
                        }
                    }
                }
            },
            None => {},
        }
    }
}


/// A role's PIN status: its code and whether a PIN is configured.
pub struct RolePinStatus {
    pub role: String,
    pub has_pin: bool,
}

/// The refusal text for `role` attempting `action`.
pub open spec fn denial_text(role: UserRole, action: Seq<char>) -> Seq<char> {
    "当前角色「"@ + role.label_text() + "」无权执行："@ + action
}

/// Whether the store holds, for `target`, an argon2 digest that accepts `pin`.
pub open spec fn pin_set_to(store: RoleAuthStore, target: UserRole, pin: Seq<char>) -> bool {
    store.pin_of(target) matches Some(h) && seq_starts_with(h, "$argon2"@) && argon2_accepts(pin, h)
}

/// Whether switching to `target` with the PIN `pin` is allowed: roles without a
/// PIN are open, others need the PIN (surrounding white space ignored).
pub open spec fn switch_allowed(store: RoleAuthStore, target: UserRole, pin: Seq<char>) -> bool {
    match store.pin_of(target) {
        Some(h) => pin_matches(trim_seq(pin), h),
        None => true,
    }
}

/// Whether the PIN matches some configured role PIN; with no PIN configured at
/// all, every PIN is accepted.
pub open spec fn any_pin_matches(store: RoleAuthStore, pin: Seq<char>) -> bool {
    store.pin_hashes@.len() == 0 || exists|i: int|
        0 <= i < store.pin_hashes@.len() && pin_matches(pin, #[trigger] store.pin_hashes@[i].1@)
}


impl Default for RoleAuthStore {
    fn default() -> (res: Self)
        ensures
            res.current_role == UserRole::Owner,
            res.pin_hashes@.len() == 0,
            !res.require_token,
    {
        RoleAuthStore { current_role: UserRole::Owner, pin_hashes: Vec::new(), require_token: false }
    }
}

/// Succeeds with `current` when it is one of `allowed`; otherwise refuses with a
/// message naming the role and the action.
pub fn require_roles(current: UserRole, allowed: &[UserRole], action: &str) -> (res: Result<UserRole, String>)
    ensures
        match res {
            Ok(r) => r == current && allowed@.contains(current),
            Err(msg) => !allowed@.contains(current) && msg@ == denial_text(current, action@),
        },
{
    let mut i: usize = 0;
    while i < allowed.len()
        invariant
            i <= allowed.len(),
            forall|j: int| 0 <= j < i ==> allowed@[j] != current,
        decreases allowed.len() - i,
    {
        if allowed[i] == current {
            return Ok(current);
        }
        i = i + 1;
    }
    let mut v = chars_of("当前角色「");
    push_str_chars(&mut v, current.label());
    push_str_chars(&mut v, "」无权执行：");
    push_str_chars(&mut v, action);
    Err(string_of(&v))
}

/// True if `pin` matches any configured role PIN; with no PIN configured at all,
/// redemption is allowed without one.
pub fn verify_any_pin(store: &RoleAuthStore, pin: &str) -> (res: bool)
    ensures
        res == any_pin_matches(*store, pin@),
        store.pin_hashes@.len() == 0 ==> res,
        forall|i: int| 0 <= i < store.pin_hashes@.len() && pin_matches(pin@, #[trigger] store.pin_hashes@[i].1@) ==> res,
        res && store.pin_hashes@.len() > 0 ==> exists|i: int|
            0 <= i < store.pin_hashes@.len() && pin_matches(pin@, #[trigger] store.pin_hashes@[i].1@),
{
    if store.pin_hashes.len() == 0 {
        return true;
    }
    let mut i: usize = 0;
    while i < store.pin_hashes.len()
        invariant
            i <= store.pin_hashes.len(),
            forall|j: int| 0 <= j < i ==> !pin_matches(pin@, #[trigger] store.pin_hashes@[j].1@),
        decreases store.pin_hashes.len() - i,
    {
        if verify_pin(pin, store.pin_hashes[i].1.as_str()) {
            return true;
        }
        i = i + 1;
    }
    false
}

/// Whether redeeming requires a staff PIN: only when some PIN is configured.
pub fn redeem_requires_pin(store: &RoleAuthStore) -> (res: bool)
    ensures
        res == (store.pin_hashes@.len() > 0),
{
    store.pin_hashes.len() > 0
}

/// The code of the signed-in role.
pub fn get_current_role(store: &RoleAuthStore) -> (res: String)
    ensures
        res@ == store.current_role.code(),
{
    owned(store.current_role.as_str())
}

/// Each role, in the order owner, cashier, chef, warehouse, with whether it has a PIN.
pub fn get_role_pin_statuses(store: &RoleAuthStore) -> (res: Vec<RolePinStatus>)
    requires
        store.wf(),
    ensures
        res@.len() == 4,
        res@[0].role@ == UserRole::Owner.code() && res@[0].has_pin == store.pin_of(UserRole::Owner) is Some,
        res@[1].role@ == UserRole::Cashier.code() && res@[1].has_pin == store.pin_of(UserRole::Cashier) is Some,
        res@[2].role@ == UserRole::Chef.code() && res@[2].has_pin == store.pin_of(UserRole::Chef) is Some,
        res@[3].role@ == UserRole::Warehouse.code() && res@[3].has_pin == store.pin_of(UserRole::Warehouse) is Some,
{
    let mut out: Vec<RolePinStatus> = Vec::new();
    out.push(RolePinStatus { role: owned(UserRole::Owner.as_str()), has_pin: store.get_pin(UserRole::Owner).is_some() });
    out.push(RolePinStatus { role: owned(UserRole::Cashier.as_str()), has_pin: store.get_pin(UserRole::Cashier).is_some() });
    out.push(RolePinStatus { role: owned(UserRole::Chef.as_str()), has_pin: store.get_pin(UserRole::Chef).is_some() });
    out.push(RolePinStatus { role: owned(UserRole::Warehouse.as_str()), has_pin: store.get_pin(UserRole::Warehouse).is_some() });
    out
}

/// Sets or clears the PIN of the role named `role`. Only the owner may do so. A
/// PIN is trimmed; an empty one clears the role's PIN, one shorter than 4 bytes is
/// refused, any other is stored as an argon2 digest.
pub fn set_role_pin(store: &mut RoleAuthStore, role: &str, pin: Option<&str>) -> (res: Result<(), String>)
    requires
        old(store).wf(),
        pin matches Some(p) ==> encode_utf8(trim_seq(p@)).len() <= 0xFFFF_FFFF,
    ensures
        final(store).wf(),
        final(store).current_role == old(store).current_role,
        final(store).require_token == old(store).require_token,
        old(store).current_role != UserRole::Owner ==> res is Err && res->Err_0@ == denial_text(
            old(store).current_role,
            "设置角色 PIN"@,
        ),
        res is Err ==> final(store).pin_hashes@ == old(store).pin_hashes@,
        old(store).current_role == UserRole::Owner ==> match UserRole::parse_spec(role@) {
            None => res is Err && res->Err_0@ == "未知角色"@,
            Some(target) => {
                let p = match pin { Some(v) => trim_seq(v@), None => Seq::<char>::empty() };
                if p.len() == 0 {
                    &&& res is Ok
                    &&& final(store).pin_of(target) is None
                    &&& forall|k: Seq<char>| k != target.code() ==> pin_lookup(final(store).pin_hashes@, k) == pin_lookup(old(store).pin_hashes@, k)
                } else if encode_utf8(p).len() < 4 {
                    res is Err && res->Err_0@ == "PIN 至少 4 位"@
                } else {
                    &&& res is Ok
                    &&& pin_set_to(*final(store), target, p)
                    &&& forall|k: Seq<char>| k != target.code() ==> pin_lookup(final(store).pin_hashes@, k) == pin_lookup(old(store).pin_hashes@, k)
                }
            },
        },
{
    if let Err(e) = require_roles(store.current_role, &[UserRole::Owner], "设置角色 PIN") {
        return Err(e);
    }
    let target = match UserRole::parse(role) {
        Ok(r) => r,
        Err(e) => return Err(e),
    };
    let trimmed: String = match pin {
        Some(v) => trim_str(v),
        None => String::new(),
    };
    if trimmed.as_str().is_empty() {
        store.clear_pin(target);
        Ok(())
    } else if trimmed.as_str().len() < 4 {
        Err(owned("PIN 至少 4 位"))
    } else {
        let h = hash_pin(trimmed.as_str());
        store.put_pin(target, h);
        Ok(())
    }
}


/// Switches the signed-in role to the role named `role`. A role with a PIN
/// requires that PIN (surrounding white space ignored; a missing PIN counts as
/// empty). Returns the new role's code.
pub fn switch_role(store: &mut RoleAuthStore, role: &str, pin: Option<&str>) -> (res: Result<String, String>)
    requires
        old(store).wf(),
    ensures
        final(store).wf(),
        final(store).pin_hashes@ == old(store).pin_hashes@,
        final(store).require_token == old(store).require_token,
        match UserRole::parse_spec(role@) {
            None => res is Err && res->Err_0@ == "未知角色"@ && final(store).current_role
                == old(store).current_role,
            Some(target) => {
                let provided = match pin { Some(v) => v@, None => Seq::<char>::empty() };
                if switch_allowed(*old(store), target, provided) {
                    res is Ok && res->Ok_0@ == target.code() && final(store).current_role == target
                } else {
                    res is Err && res->Err_0@ == "PIN 错误"@ && final(store).current_role
                        == old(store).current_role
                }
            },
        },
{
    let target = match UserRole::parse(role) {
        Ok(r) => r,
        Err(e) => return Err(e),
    };
    match store.get_pin(target) {
        Some(expected) => {
            let provided: &str = match pin {
                Some(v) => v,
                None => "",
            };
            proof {
                assert(provided@ == (match pin { Some(v) => v@, None => Seq::<char>::empty() })) by {
                    reveal_strlit("");
                }
            }
            let trimmed = trim_str(provided);
            if !verify_pin(trimmed.as_str(), expected.as_str()) {
                return Err(owned("PIN 错误"));
            }
        },
        None => {},
    }
    store.current_role = target;
    Ok(owned(target.as_str()))
}

/// Turns the signed-token requirement for self-orders on or off.
pub fn set_require_token(store: &mut RoleAuthStore, enabled: bool)
    ensures
        final(store).require_token == enabled,
        final(store).current_role == old(store).current_role,
        final(store).pin_hashes@ == old(store).pin_hashes@,
{
    store.require_token = enabled;
}

/// After a role's PIN has been set to `pin`, switching to that role with the same
/// PIN is allowed.
pub proof fn law_set_pin_then_switch(store: RoleAuthStore, target: UserRole, pin: Seq<char>)
    requires
        pin_set_to(store, target, trim_seq(pin)),
    ensures
        switch_allowed(store, target, pin),
{
}

/// A role whose PIN has been cleared can be entered with any PIN, or none.
pub proof fn law_cleared_pin_is_open(store: RoleAuthStore, target: UserRole, pin: Seq<char>)
    requires
        store.pin_of(target) is None,
    ensures
        switch_allowed(store, target, pin),
{
}

/// With no PIN configured at all, every PIN passes the any-role check.
pub proof fn law_no_pins_accept_any(store: RoleAuthStore, pin: Seq<char>)
    requires
        store.pin_hashes@.len() == 0,
    ensures
        any_pin_matches(store, pin),
{
}

/// Which roles may run a kind of command.
#[derive(PartialEq, Eq, Structural, Clone, Copy, Debug)]
pub enum Permission {
    /// The owner alone: settings, menu, recipes, printers, PINs.
    OwnerOnly,
    /// Owner and cashier: orders, payments, customers.
    Sales,
    /// Owner and warehouse: materials, stock, purchasing.
    Stock,
    /// Owner, cashier and chef: kitchen tickets and kitchen printing.
    Kitchen,
    /// Owner, chef and warehouse: production orders.
    Production,
    /// Every role.
    AllStaff,
}

/// Whether `role` may run commands of kind `p`.
pub open spec fn permitted(p: Permission, role: UserRole) -> bool {
    match p {
        Permission::OwnerOnly => role == UserRole::Owner,
        Permission::Sales => role == UserRole::Owner || role == UserRole::Cashier,
        Permission::Stock => role == UserRole::Owner || role == UserRole::Warehouse,
        Permission::Kitchen => role == UserRole::Owner || role == UserRole::Cashier || role == UserRole::Chef,
        Permission::Production => role == UserRole::Owner || role == UserRole::Chef || role == UserRole::Warehouse,
        Permission::AllStaff => true,
    }
}

/// The roles that may run commands of kind `p`, owner first.
pub fn allowed_roles(p: Permission) -> (res: Vec<UserRole>)
    ensures
        forall|r: UserRole| res@.contains(r) <==> permitted(p, r),
{
    let mut v: Vec<UserRole> = Vec::new();
    v.push(UserRole::Owner);
    match p {
        Permission::OwnerOnly => {},
        Permission::Sales => {
            v.push(UserRole::Cashier);
        },
        Permission::Stock => {
            v.push(UserRole::Warehouse);
        },
        Permission::Kitchen => {
            v.push(UserRole::Cashier);
            v.push(UserRole::Chef);
        },
        Permission::Production => {
            v.push(UserRole::Chef);
            v.push(UserRole::Warehouse);
        },
        Permission::AllStaff => {
            v.push(UserRole::Cashier);
            v.push(UserRole::Chef);
            v.push(UserRole::Warehouse);
        },
    }
    proof {
        assert forall|r: UserRole| v@.contains(r) <==> permitted(p, r) by {
            if permitted(p, r) {
                match r {
                    UserRole::Owner => assert(v@[0] == r),
                    UserRole::Cashier => {
                        assert(v@[1] == r);
                    },
                    UserRole::Chef => {
                        if p == Permission::Production {
                            assert(v@[1] == r);
                        } else {
                            assert(v@[2] == r);
                        }
                    },
                    UserRole::Warehouse => {
                        if p == Permission::AllStaff {
                            assert(v@[3] == r);
                        } else if p == Permission::Production {
                            assert(v@[2] == r);
                        } else {
                            assert(v@[1] == r);
                        }
                    },
                }
            }
        }
    }
    v
}

/// Lets the signed-in role run a command of kind `p` named `action`, or refuses
/// with a message naming the role and the action.
pub fn authorize(current: UserRole, p: Permission, action: &str) -> (res: Result<UserRole, String>)
    ensures
        p == Permission::OwnerOnly && current != UserRole::Owner ==> res is Err,
        current == UserRole::Owner ==> res == Ok::<UserRole, String>(current),
        permitted(p, current) ==> res == Ok::<UserRole, String>(current),
        !permitted(p, current) ==> res is Err && res->Err_0@ == denial_text(current, action@),
{
    let roles = allowed_roles(p);
    let res = require_roles(current, roles.as_slice(), action);
    proof {
        assert(roles@.contains(current) == permitted(p, current));
        assert(permitted(p, UserRole::Owner));
        assert(p == Permission::OwnerOnly && current != UserRole::Owner ==> !permitted(p, current));
    }
    res
}

/// The owner may run every command.
pub proof fn law_owner_permitted(p: Permission)
    ensures
        permitted(p, UserRole::Owner),
{
}

/// Which roles may run each kind of command, as the commands require them:
/// owner-only commands are the owner's alone; sales commands are the owner's and
/// the cashier's; stock commands the owner's and the warehouse keeper's; kitchen
/// commands the owner's, the cashier's and the chef's; production commands the
/// owner's, the chef's and the warehouse keeper's; and every role may run the
/// commands open to all staff.
pub proof fn law_permission_table(role: UserRole)
    ensures
        permitted(Permission::OwnerOnly, role) <==> role == UserRole::Owner,
        permitted(Permission::Sales, role) <==> (role == UserRole::Owner || role == UserRole::Cashier),
        permitted(Permission::Stock, role) <==> (role == UserRole::Owner || role == UserRole::Warehouse),
        permitted(Permission::Kitchen, role) <==> (role == UserRole::Owner || role == UserRole::Cashier
            || role == UserRole::Chef),
        permitted(Permission::Production, role) <==> (role == UserRole::Owner || role == UserRole::Chef
            || role == UserRole::Warehouse),
        permitted(Permission::AllStaff, role),
{
}

/// A role other than the owner is refused every owner-only command, with the
/// message naming the role and the command.
pub proof fn law_owner_only_refuses_others(role: UserRole, action: Seq<char>)
    requires
        role != UserRole::Owner,
    ensures
        !permitted(Permission::OwnerOnly, role),
        denial_text(role, action) == "当前角色「"@ + role.label_text() + "」无权执行："@ + action,
{
}

/// The any-PIN check accepts a PIN as soon as any stored digest, wherever it
/// stands, accepts it; it accepts every PIN when none is stored; and otherwise it
/// refuses a PIN that no stored digest accepts.
pub proof fn law_any_pin_checks_every_entry(store: RoleAuthStore, pin: Seq<char>)
    ensures
        forall|i: int| 0 <= i < store.pin_hashes@.len() && pin_matches(pin, #[trigger] store.pin_hashes@[i].1@)
            ==> any_pin_matches(store, pin),
        store.pin_hashes@.len() == 0 ==> any_pin_matches(store, pin),
        store.pin_hashes@.len() > 0 && (forall|i: int| 0 <= i < store.pin_hashes@.len()
            ==> !pin_matches(pin, #[trigger] store.pin_hashes@[i].1@)) ==> !any_pin_matches(store, pin),
{
}

} // verus!

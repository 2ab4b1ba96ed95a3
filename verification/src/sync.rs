//! LAN sync, telemetry and update endpoints: secrets, actions and URLs.

use vstd::prelude::*;
use crate::numtext::{i64_text, int_text, dec_seq, u64_text};
use crate::text::{owned, 
    chars_of, push_all, push_str_chars, seq_contains, seq_starts_with, str_contains, str_eq,
    str_starts_with, string_of, trim_chars, trim_seq, trim_str,
};

verus! {


/// The sync protocol version this build speaks.
pub open spec fn sync_protocol_version() -> Seq<char> {
    "2"@
}

/// The shared sync secret, trimmed; a blank one is refused.
pub fn require_sync_secret(secret: &str) -> (res: Result<String, String>)
    ensures
        match res {
            Ok(s) => s@ == trim_seq(secret@) && s@.len() > 0,
            Err(m) => trim_seq(secret@).len() == 0 && m@ == "同步密钥不能为空"@,
        },
{
    let t = trim_str(secret);
    if t.as_str().is_empty() {
        Err(owned("同步密钥不能为空"))
    } else {
        Ok(t)
    }
}

/// A remote kitchen-ticket action, trimmed: only `start` and `finish` exist.
pub fn validate_ticket_action(action: &str) -> (res: Result<String, String>)
    ensures
        match res {
            Ok(a) => a@ == trim_seq(action@) && (a@ == "start"@ || a@ == "finish"@),
            Err(m) => trim_seq(action@) != "start"@ && trim_seq(action@) != "finish"@ && m@
                == "不支持的工单动作"@,
        },
{
    let t = trim_str(action);
    if str_eq(t.as_str(), "start") || str_eq(t.as_str(), "finish") {
        Ok(t)
    } else {
        Err(owned("不支持的工单动作"))
    }
}

/// `s` without its trailing slashes.
pub open spec fn strip_trailing_slashes(s: Seq<char>) -> Seq<char>
    decreases s.len(),
{
    if s.len() > 0 && s.last() == '/' {
        strip_trailing_slashes(s.drop_last())
    } else {
        s
    }
}

fn base_url(server_url: &str) -> (res: Vec<char>)
    ensures
        res@ == strip_trailing_slashes(server_url@),
{
    let v = chars_of(server_url);
    let mut j: usize = v.len();
    proof {
        assert(v@.subrange(0, j as int) =~= server_url@);
    }
    while j > 0 && v[j - 1] == '/'
        invariant
            j <= v.len(),
            strip_trailing_slashes(server_url@) == strip_trailing_slashes(v@.subrange(0, j as int)),
        decreases j,
    {
        assert(v@.subrange(0, j as int).drop_last() =~= v@.subrange(0, j - 1));
        j = j - 1;
    }
    assert(v@.subrange(0, v@.len() as int) =~= v@);
    crate::text::slice_chars(&v, 0, j)
}

/// The URL listing orders created since `since_epoch_s` on a sync server.
pub fn orders_sync_url(server_url: &str, since_epoch_s: i64) -> (res: String)
    ensures
        res@ == strip_trailing_slashes(server_url@) + "/api/orders?since="@ + int_text(since_epoch_s as int),
{
    let mut v = base_url(server_url);
    push_str_chars(&mut v, "/api/orders?since=");
    let d = i64_text(since_epoch_s);
    push_all(&mut v, &d);
    string_of(&v)
}

/// The URL listing kitchen tickets on a sync server.
pub fn tickets_sync_url(server_url: &str) -> (res: String)
    ensures
        res@ == strip_trailing_slashes(server_url@) + "/api/tickets"@,
{
    let mut v = base_url(server_url);
    push_str_chars(&mut v, "/api/tickets");
    string_of(&v)
}

/// The URL that applies `action` to a kitchen ticket on a sync server.
pub fn ticket_action_url(server_url: &str, ticket_id: i64, action: &str) -> (res: String)
    ensures
        res@ == strip_trailing_slashes(server_url@) + "/api/tickets/"@ + int_text(ticket_id as int)
            + "/"@ + action@,
{
    let mut v = base_url(server_url);
    push_str_chars(&mut v, "/api/tickets/");
    let d = i64_text(ticket_id);
    push_all(&mut v, &d);
    push_str_chars(&mut v, "/");
    push_str_chars(&mut v, action);
    string_of(&v)
}

/// The protocol version to announce: the client's own, else this build's.
pub fn protocol_version(client_version: Option<String>) -> (res: String)
    ensures
        match client_version {
            Some(v) => res@ == v@,
            None => res@ == sync_protocol_version(),
        },
{
    match client_version {
        Some(v) => v,
        None => owned("2"),
    }
}

/// The address of a local server: `http://ip:port`, on the loop-back address when
/// no LAN address is known.
pub fn local_server_url(ip: Option<&str>, port: u16) -> (res: String)
    ensures
        res@ == "http://"@ + (match ip { Some(a) => a@, None => "127.0.0.1"@ }) + ":"@ + dec_seq(port as nat),
{
    let mut v = chars_of("http://");
    match ip {
        Some(a) => push_str_chars(&mut v, a),
        None => push_str_chars(&mut v, "127.0.0.1"),
    }
    push_str_chars(&mut v, ":");
    let d = u64_text(port as u64);
    push_all(&mut v, &d);
    string_of(&v)
}

/// The telemetry URL used when none is configured.
pub open spec fn default_telemetry_url() -> Seq<char> {
    "https://your-cloud-server.com/api/telemetry/heartbeat"@
}

/// The pieces of `s` between the separator `sep`, in order.
pub open spec fn split_seq(s: Seq<char>, sep: char) -> Seq<Seq<char>>
    decreases s.len(),
{
    if s.len() == 0 {
        seq![Seq::empty()]
    } else {
        let rest = split_seq(s.drop_last(), sep);
        if s.last() == sep {
            rest.push(Seq::empty())
        } else {
            rest.update(rest.len() - 1, rest.last().push(s.last()))
        }
    }
}

proof fn lemma_split_nonempty(s: Seq<char>, sep: char)
    ensures
        split_seq(s, sep).len() >= 1,
    decreases s.len(),
{
    if s.len() > 0 {
        lemma_split_nonempty(s.drop_last(), sep);
    }
}

/// Whether `url` is one of the comma-separated, trimmed, non-blank entries of `list`.
pub open spec fn listed(list: Seq<char>, url: Seq<char>) -> bool {
    exists|i: int|
        0 <= i < split_seq(list, ',').len() && trim_seq(#[trigger] split_seq(list, ',')[i]) == url
            && url.len() > 0
}

/// The telemetry endpoint: the caller's URL when it is on the allow-list and uses
/// HTTPS; otherwise the configured default when it uses HTTPS; otherwise the
/// built-in placeholder. The allow-list defaults to the configured default URL.
pub open spec fn telemetry_endpoint_text(candidate: Option<Seq<char>>, configured: Option<Seq<char>>, allowlist: Option<Seq<char>>) -> Seq<char> {
    let default = match configured { Some(d) => d, None => default_telemetry_url() };
    let list = match allowlist { Some(a) => a, None => default };
    match candidate {
        Some(url) if listed(list, url) && seq_starts_with(url, "https://"@) => url,
        _ => if seq_starts_with(default, "https://"@) { default } else { default_telemetry_url() },
    }
}

fn allow_listed(list: &str, url: &str) -> (res: bool)
    ensures
        res == listed(list@, url@),
{
    let s = chars_of(list);
    let target = chars_of(url);
    if target.len() == 0 {
        return false;
    }
    let mut piece: Vec<char> = Vec::new();
    let mut i: usize = 0;
    proof {
        assert(s@.subrange(0, 0) =~= Seq::<char>::empty());
    }
    while i < s.len()
        invariant
            i <= s.len(),
            target@ == url@,
            s@ == list@,
            target@.len() > 0,
            split_seq(s@.subrange(0, i as int), ',').len() >= 1,
            piece@ == split_seq(s@.subrange(0, i as int), ',').last(),
            forall|k: int| 0 <= k < split_seq(s@.subrange(0, i as int), ',').len() - 1
                ==> trim_seq(#[trigger] split_seq(s@.subrange(0, i as int), ',')[k]) != target@,
        decreases s.len() - i,
    {
        let ghost pre = split_seq(s@.subrange(0, i as int), ',');
        assert(s@.subrange(0, i + 1).drop_last() =~= s@.subrange(0, i as int));
        if s[i] == ',' {
            let t = trim_chars(&piece);
            if crate::text::chars_eq(&t, &target) {
                proof {
                    let full = split_seq(s@, ',');
                    let post = split_seq(s@.subrange(0, i + 1), ',');
                    assert(post == pre.push(Seq::empty()));
                    lemma_split_prefix(s@, i as int + 1);
                    assert(full[pre.len() - 1] == post[pre.len() - 1]);
                    assert(full[pre.len() - 1] == pre.last());
                    assert(trim_seq(full[pre.len() - 1]) == url@);
                }
                return true;
            }
            piece = Vec::new();
            proof {
                let post = split_seq(s@.subrange(0, i + 1), ',');
                assert(post == pre.push(Seq::empty()));
                assert(piece@ =~= post.last());
                assert forall|k: int| 0 <= k < post.len() - 1 implies trim_seq(#[trigger] post[k]) != target@ by {
                    assert(post[k] == pre[k]);
                }
            }
        } else {
            piece.push(s[i]);
            proof {
                let post = split_seq(s@.subrange(0, i + 1), ',');
                assert(post == pre.update(pre.len() - 1, pre.last().push(s@[i as int])));
                assert(piece@ =~= post.last());
                assert forall|k: int| 0 <= k < post.len() - 1 implies trim_seq(#[trigger] post[k]) != target@ by {
                    assert(post[k] == pre[k]);
                }
            }
        }
        i = i + 1;
    }
    assert(s@.subrange(0, s@.len() as int) =~= s@);
    let t = trim_chars(&piece);
    let found = crate::text::chars_eq(&t, &target);
    proof {
        let full = split_seq(s@, ',');
        if !found {
            assert forall|k: int| 0 <= k < full.len() implies trim_seq(#[trigger] full[k]) != target@ by {
                if k < full.len() - 1 {
                } else {
                    assert(full[k] == full.last());
                }
            }
        }
    }
    found
}

/// The pieces before position `n` keep their place when more text follows.
proof fn lemma_split_prefix(s: Seq<char>, n: int)
    requires
        0 <= n <= s.len(),
    ensures
        split_seq(s, ',').len() >= split_seq(s.subrange(0, n), ',').len(),
        split_seq(s.subrange(0, n), ',').len() >= 1,
        forall|k: int| 0 <= k < split_seq(s.subrange(0, n), ',').len() - 1 ==> #[trigger] split_seq(s, ',')[k]
            == split_seq(s.subrange(0, n), ',')[k],
    decreases s.len() - n,
{
    lemma_split_nonempty(s.subrange(0, n), ',');
    lemma_split_nonempty(s, ',');
    if n == s.len() {
        assert(s.subrange(0, n) =~= s);
    } else {
        lemma_split_prefix(s, n + 1);
        let a = split_seq(s.subrange(0, n), ',');
        let b = split_seq(s.subrange(0, n + 1), ',');
        assert(s.subrange(0, n + 1).drop_last() =~= s.subrange(0, n));
        assert forall|k: int| 0 <= k < a.len() - 1 implies b[k] == a[k] by {}
    }
}

/// The telemetry endpoint for a caller-proposed URL, given the configured default
/// URL and allow-list, when set.
pub fn telemetry_endpoint(candidate: Option<&str>, configured: Option<&str>, allowlist: Option<&str>) -> (res: String)
    ensures
        res@ == telemetry_endpoint_text(
            match candidate { Some(c) => Some(c@), None => None },
            match configured { Some(c) => Some(c@), None => None },
            match allowlist { Some(a) => Some(a@), None => None },
        ),
{
    let default_url = "https://your-cloud-server.com/api/telemetry/heartbeat";
    let default: &str = match configured {
        Some(d) => d,
        None => default_url,
    };
    let list: &str = match allowlist {
        Some(a) => a,
        None => default,
    };
    match candidate {
        Some(url) => {
            if allow_listed(list, url) && str_starts_with(url, "https://") {
                return owned(url);
            }
        },
        None => {},
    }
    if str_starts_with(default, "https://") {
        owned(default)
    } else {
        owned(default_url)
    }
}

/// Whether a telemetry URL is still the unconfigured placeholder.
pub fn is_placeholder_endpoint(url: &str) -> (res: bool)
    ensures
        res == seq_contains(url@, "your-cloud-server.com"@),
{
    str_contains(url, "your-cloud-server.com")
}

/// Where update packages may be downloaded from.
pub open spec fn release_prefix() -> Seq<char> {
    "https://github.com/0xRyanlee/hyphen-cuckoo/releases/"@
}

/// Accepts only update downloads from the project's release page.
pub fn check_update_url(url: &str) -> (res: Result<(), String>)
    ensures
        res is Ok <==> seq_starts_with(url@, release_prefix()),
        res matches Err(m) ==> m@ == "更新下载地址无效"@,
{
    if str_starts_with(url, "https://github.com/0xRyanlee/hyphen-cuckoo/releases/") {
        Ok(())
    } else {
        Err(owned("更新下载地址无效"))
    }
}

} // verus!

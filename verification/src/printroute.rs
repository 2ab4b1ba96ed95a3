//! Choosing the printer for a job and how to reach it.

use vstd::prelude::*;
use crate::model::PrinterConfig;
use crate::numtext::{i64_text, int_text};
use crate::text::{owned, chars_of, push_all, push_str_chars, str_eq, string_of};

verus! {

/// How a print job reaches its printer.
pub enum PrintRoute {
    /// Through the Feie cloud service, with the account and printer serial number.
    Feie { user: String, ukey: String, sn: String },
    /// Over the local network, to an ESC/POS printer at `ip:port`.
    Lan { ip: String, port: i32 },
}

/// The refusal for a printer id that is not configured.
pub open spec fn missing_printer_text(id: i64) -> Seq<char> {
    "打印機 #"@ + int_text(id as int) + " 不存在"@
}

/// The refusal for an unknown connection type.
pub open spec fn unsupported_connection_text(kind: Seq<char>) -> Seq<char> {
    "不支持的連接類型: "@ + kind
}

/// The route to `printer`, or the first missing setting.
pub open spec fn route_result(printer: PrinterConfig) -> Result<(Seq<char>, Seq<char>, Seq<char>, Seq<char>, i32), Seq<char>> {
    if printer.connection_type@ == "feie"@ {
        match (printer.feie_user, printer.feie_ukey, printer.feie_sn) {
            (None, _, _) => Err("飛鵝用戶未配置"@),
            (Some(_), None, _) => Err("飛鵝 UKEY 未配置"@),
            (Some(_), Some(_), None) => Err("飛鵝 SN 未配置"@),
            (Some(u), Some(k), Some(s)) => Ok(("feie"@, u@, k@, s@, 0)),
        }
    } else if printer.connection_type@ == "lan"@ {
        match printer.lan_ip {
            None => Err("局域網 IP 未配置"@),
            Some(ip) => Ok(("lan"@, ip@, Seq::empty(), Seq::empty(), printer.lan_port)),
        }
    } else {
        Err(unsupported_connection_text(printer.connection_type@))
    }
}

/// Whether `route` is the route that `route_result` describes.
pub open spec fn route_matches(route: PrintRoute, r: (Seq<char>, Seq<char>, Seq<char>, Seq<char>, i32)) -> bool {
    match route {
        PrintRoute::Feie { user, ukey, sn } => r.0 == "feie"@ && user@ == r.1 && ukey@ == r.2 && sn@ == r.3,
        PrintRoute::Lan { ip, port } => r.0 == "lan"@ && ip@ == r.1 && port == r.4,
    }
}


/// How to reach `printer`: Feie needs user, UKEY and serial number; LAN needs an
/// IP address; other connection types are refused.
pub fn resolve_print_route(printer: &PrinterConfig) -> (res: Result<PrintRoute, String>)
    ensures
        printer.connection_type@ == "feie"@ && printer.feie_user is Some && printer.feie_ukey is Some
            && printer.feie_sn is Some ==> (res is Ok && res->Ok_0 is Feie
            && res->Ok_0->user@ == printer.feie_user->0@ && res->Ok_0->ukey@ == printer.feie_ukey->0@
            && res->Ok_0->sn@ == printer.feie_sn->0@),
        printer.connection_type@ == "lan"@ && printer.lan_ip is Some ==> (res is Ok && res->Ok_0 is Lan
            && res->Ok_0->ip@ == printer.lan_ip->0@ && res->Ok_0->port == printer.lan_port),
        match route_result(*printer) {
            Ok(r) => res is Ok && route_matches(res->Ok_0, r),
            Err(m) => res is Err && res->Err_0@ == m,
        },
{
    proof {
        reveal_strlit("feie");
        reveal_strlit("lan");
        assert("feie"@.len() != "lan"@.len());
    }
    if str_eq(printer.connection_type.as_str(), "feie") {
        let user = match &printer.feie_user {
            Some(u) => u.clone(),
            None => return Err(owned("飛鵝用戶未配置")),
        };
        let ukey = match &printer.feie_ukey {
            Some(k) => k.clone(),
            None => return Err(owned("飛鵝 UKEY 未配置")),
        };
        let sn = match &printer.feie_sn {
            Some(s) => s.clone(),
            None => return Err(owned("飛鵝 SN 未配置")),
        };
        Ok(PrintRoute::Feie { user, ukey, sn })
    } else if str_eq(printer.connection_type.as_str(), "lan") {
        match &printer.lan_ip {
            Some(ip) => Ok(PrintRoute::Lan { ip: ip.clone(), port: printer.lan_port }),
            None => Err(owned("局域網 IP 未配置")),
        }
    } else {
        let mut v = chars_of("不支持的連接類型: ");
        push_str_chars(&mut v, printer.connection_type.as_str());
        Err(string_of(&v))
    }
}

/// How to reach `printer` for a status query; an unknown connection type is
/// refused without naming it.
pub fn resolve_status_route(printer: &PrinterConfig) -> (res: Result<PrintRoute, String>)
    ensures
        match route_result(*printer) {
            Ok(r) => res is Ok && route_matches(res->Ok_0, r),
            Err(m) => res is Err && (printer.connection_type@ == "feie"@ || printer.connection_type@
                == "lan"@ ==> res->Err_0@ == m) && (printer.connection_type@ != "feie"@
                && printer.connection_type@ != "lan"@ ==> res->Err_0@ == "不支持的連接類型"@),
        },
{
    match resolve_print_route(printer) {
        Ok(r) => Ok(r),
        Err(e) => {
            if str_eq(printer.connection_type.as_str(), "feie") || str_eq(printer.connection_type.as_str(), "lan") {
                Err(e)
            } else {
                Err(owned("不支持的連接類型"))
            }
        },
    }
}

/// The configured printer with id `id`.
pub fn find_printer(printers: &[PrinterConfig], id: i64) -> (res: Result<&PrinterConfig, String>)
    ensures
        match res {
            Ok(p) => p.id == id && exists|k: int| 0 <= k < printers@.len() && printers@[k] == *p,
            Err(m) => (forall|k: int| 0 <= k < printers@.len() ==> printers@[k].id != id) && m@
                == missing_printer_text(id),
        },
{
    let mut i: usize = 0;
    while i < printers.len()
        invariant
            i <= printers.len(),
            forall|k: int| 0 <= k < i ==> printers@[k].id != id,
        decreases printers.len() - i,
    {
        if printers[i].id == id {
            return Ok(&printers[i]);
        }
        i = i + 1;
    }
    let mut v = chars_of("打印機 #");
    let d = i64_text(id);
    push_all(&mut v, &d);
    push_str_chars(&mut v, " 不存在");
    Err(string_of(&v))
}

/// The printer for a job: the one asked for by id, otherwise the default printer.
pub fn choose_printer<'a>(printers: &'a [PrinterConfig], default_printer: Option<&'a PrinterConfig>, printer_id: Option<i64>) -> (res: Result<&'a PrinterConfig, String>)
    ensures
        match printer_id {
            Some(id) => match res {
                Ok(p) => p.id == id && exists|k: int| 0 <= k < printers@.len() && printers@[k] == *p,
                Err(m) => (forall|k: int| 0 <= k < printers@.len() ==> printers@[k].id != id) && m@
                    == missing_printer_text(id),
            },
            None => match default_printer {
                Some(d) => res == Ok::<&PrinterConfig, String>(d),
                None => res is Err && res->Err_0@ == "未配置默認打印機"@,
            },
        },
{
    match printer_id {
        Some(id) => find_printer(printers, id),
        None => match default_printer {
            Some(d) => Ok(d),
            None => Err(owned("未配置默認打印機")),
        },
    }
}

/// New settings for a printer; each given field replaces the stored one.
pub struct PrinterUpdate {
    pub name: Option<String>,
    pub printer_type: Option<String>,
    pub connection_type: Option<String>,
    pub feie_user: Option<String>,
    pub feie_ukey: Option<String>,
    pub feie_sn: Option<String>,
    pub feie_key: Option<String>,
    pub lan_ip: Option<String>,
    pub lan_port: Option<i32>,
    pub paper_width: Option<String>,
    pub is_default: Option<bool>,
}

/// `new` when it is given, else `old`.
pub open spec fn replaced<T>(old: T, new: Option<T>) -> T {
    match new {
        Some(v) => v,
        None => old,
    }
}

/// `new` when it is given, else `old`, for a setting that may be unset.
pub open spec fn replaced_opt<T>(old: Option<T>, new: Option<T>) -> Option<T> {
    match new {
        Some(v) => Some(v),
        None => old,
    }
}

/// A printer's record with the given fields of `u` applied.
pub open spec fn updated_printer(p: PrinterConfig, u: PrinterUpdate) -> PrinterConfig {
    PrinterConfig {
        name: replaced(p.name, u.name),
        printer_type: replaced(p.printer_type, u.printer_type),
        connection_type: replaced(p.connection_type, u.connection_type),
        feie_user: replaced_opt(p.feie_user, u.feie_user),
        feie_ukey: replaced_opt(p.feie_ukey, u.feie_ukey),
        feie_sn: replaced_opt(p.feie_sn, u.feie_sn),
        feie_key: replaced_opt(p.feie_key, u.feie_key),
        lan_ip: replaced_opt(p.lan_ip, u.lan_ip),
        lan_port: replaced(p.lan_port, u.lan_port),
        paper_width: replaced(p.paper_width, u.paper_width),
        is_default: replaced(p.is_default, u.is_default),
        ..p
    }
}

/// All printers after updating printer `id` with `u`: making it the default
/// first clears the default flag of every printer.
pub open spec fn printers_after_update(ps: Seq<PrinterConfig>, id: i64, u: PrinterUpdate) -> Seq<PrinterConfig> {
    Seq::new(ps.len(), |k: int| {
        let p = if u.is_default == Some(true) { PrinterConfig { is_default: false, ..ps[k] } } else { ps[k] };
        if p.id == id { updated_printer(p, u) } else { p }
    })
}

fn replace_text(old: &String, new: &Option<String>) -> (res: String)
    ensures
        res == replaced(*old, *new),
{
    match new {
        Some(v) => v.clone(),
        None => old.clone(),
    }
}

fn replace_opt_text(old: &Option<String>, new: &Option<String>) -> (res: Option<String>)
    ensures
        res == replaced_opt(*old, *new),
{
    match new {
        Some(v) => Some(v.clone()),
        None => match old {
            Some(o) => Some(o.clone()),
            None => None,
        },
    }
}

fn cloned_printer(p: &PrinterConfig, clear_default: bool) -> (res: PrinterConfig)
    ensures
        res == (if clear_default { PrinterConfig { is_default: false, ..*p } } else { *p }),
{
    PrinterConfig {
        id: p.id,
        name: p.name.clone(),
        printer_type: p.printer_type.clone(),
        connection_type: p.connection_type.clone(),
        feie_user: replace_opt_text(&p.feie_user, &None),
        feie_ukey: replace_opt_text(&p.feie_ukey, &None),
        feie_sn: replace_opt_text(&p.feie_sn, &None),
        feie_key: replace_opt_text(&p.feie_key, &None),
        lan_ip: replace_opt_text(&p.lan_ip, &None),
        lan_port: p.lan_port,
        paper_width: p.paper_width.clone(),
        is_default: if clear_default { false } else { p.is_default },
        is_active: p.is_active,
        created_at: p.created_at.clone(),
        updated_at: p.updated_at.clone(),
    }
}

fn updated_record(p: &PrinterConfig, u: &PrinterUpdate) -> (res: PrinterConfig)
    ensures
        res == updated_printer(*p, *u),
{
    PrinterConfig {
        id: p.id,
        name: replace_text(&p.name, &u.name),
        printer_type: replace_text(&p.printer_type, &u.printer_type),
        connection_type: replace_text(&p.connection_type, &u.connection_type),
        feie_user: replace_opt_text(&p.feie_user, &u.feie_user),
        feie_ukey: replace_opt_text(&p.feie_ukey, &u.feie_ukey),
        feie_sn: replace_opt_text(&p.feie_sn, &u.feie_sn),
        feie_key: replace_opt_text(&p.feie_key, &u.feie_key),
        lan_ip: replace_opt_text(&p.lan_ip, &u.lan_ip),
        lan_port: match u.lan_port { Some(v) => v, None => p.lan_port },
        paper_width: replace_text(&p.paper_width, &u.paper_width),
        is_default: match u.is_default { Some(v) => v, None => p.is_default },
        is_active: p.is_active,
        created_at: p.created_at.clone(),
        updated_at: p.updated_at.clone(),
    }
}

/// Applies an update to printer `id` among all stored printers.
pub fn update_printer(printers: &Vec<PrinterConfig>, id: i64, upd: &PrinterUpdate) -> (res: Vec<PrinterConfig>)
    ensures
        res@ == printers_after_update(printers@, id, *upd),
{
    let clear = match upd.is_default {
        Some(d) => d,
        None => false,
    };
    let mut out: Vec<PrinterConfig> = Vec::new();
    let mut i: usize = 0;
    while i < printers.len()
        invariant
            i <= printers.len(),
            clear == (upd.is_default == Some(true)),
            out@ =~= printers_after_update(printers@, id, *upd).take(i as int),
        decreases printers.len() - i,
    {
        let p = cloned_printer(&printers[i], clear);
        if p.id == id {
            out.push(updated_record(&p, upd));
        } else {
            out.push(p);
        }
        i = i + 1;
    }
    out
}

/// After a printer is made the default, no other printer is the default.
pub proof fn law_single_default(ps: Seq<PrinterConfig>, id: i64, u: PrinterUpdate)
    requires
        u.is_default == Some(true),
    ensures
        forall|k: int| 0 <= k < ps.len() && (#[trigger] printers_after_update(ps, id, u)[k]).is_default
            ==> printers_after_update(ps, id, u)[k].id == id,
{
}

/// An update that does not touch the default flag leaves every printer's
/// default flag as it was.
pub proof fn law_default_kept(ps: Seq<PrinterConfig>, id: i64, u: PrinterUpdate)
    requires
        u.is_default is None,
    ensures
        forall|k: int| 0 <= k < ps.len() ==> (#[trigger] printers_after_update(ps, id, u)[k]).is_default == ps[k].is_default,
{
}

/// A Feie printer with its account, key and serial number set is reached with
/// exactly those: the route's user is the printer's Feie user, its key the
/// printer's Feie UKEY and its serial number the printer's Feie SN. A LAN printer
/// with an address is reached at that address and the printer's port.
pub proof fn law_route_uses_printer_settings(printer: PrinterConfig, route: PrintRoute)
    ensures
        printer.connection_type@ == "feie"@ && printer.feie_user is Some && printer.feie_ukey is Some
            && printer.feie_sn is Some ==> {
            &&& route_result(printer) is Ok
            &&& route_matches(route, route_result(printer)->Ok_0) ==> (route is Feie
                && route->user@ == printer.feie_user->0@ && route->ukey@ == printer.feie_ukey->0@
                && route->sn@ == printer.feie_sn->0@)
        },
        printer.connection_type@ == "lan"@ && printer.lan_ip is Some ==> {
            &&& route_result(printer) is Ok
            &&& route_matches(route, route_result(printer)->Ok_0) ==> (route is Lan
                && route->ip@ == printer.lan_ip->0@ && route->port == printer.lan_port)
        },
{
    reveal_strlit("feie");
    reveal_strlit("lan");
    assert("feie"@.len() != "lan"@.len());
}

/// Updating printer `id` gives every field that the update carries to that
/// printer, keeps every field it does not carry, and keeps its id, active flag
/// and timestamps.
pub proof fn law_update_applies_given_fields(ps: Seq<PrinterConfig>, id: i64, u: PrinterUpdate, k: int)
    requires
        0 <= k < ps.len(),
        ps[k].id == id,
    ensures
        ({
            let q = printers_after_update(ps, id, u)[k];
            &&& q.id == id
            &&& (u.name matches Some(x) ==> q.name == x) && (u.name is None ==> q.name == ps[k].name)
            &&& (u.printer_type matches Some(x) ==> q.printer_type == x)
                && (u.printer_type is None ==> q.printer_type == ps[k].printer_type)
            &&& (u.connection_type matches Some(x) ==> q.connection_type == x)
                && (u.connection_type is None ==> q.connection_type == ps[k].connection_type)
            &&& (u.feie_user matches Some(x) ==> q.feie_user == Some(x))
                && (u.feie_user is None ==> q.feie_user == ps[k].feie_user)
            &&& (u.feie_ukey matches Some(x) ==> q.feie_ukey == Some(x))
                && (u.feie_ukey is None ==> q.feie_ukey == ps[k].feie_ukey)
            &&& (u.feie_sn matches Some(x) ==> q.feie_sn == Some(x))
                && (u.feie_sn is None ==> q.feie_sn == ps[k].feie_sn)
            &&& (u.feie_key matches Some(x) ==> q.feie_key == Some(x))
                && (u.feie_key is None ==> q.feie_key == ps[k].feie_key)
            &&& (u.lan_ip matches Some(x) ==> q.lan_ip == Some(x))
                && (u.lan_ip is None ==> q.lan_ip == ps[k].lan_ip)
            &&& (u.lan_port matches Some(x) ==> q.lan_port == x) && (u.lan_port is None ==> q.lan_port == ps[k].lan_port)
            &&& (u.paper_width matches Some(x) ==> q.paper_width == x)
                && (u.paper_width is None ==> q.paper_width == ps[k].paper_width)
            &&& (u.is_default matches Some(x) ==> q.is_default == x)
                && (u.is_default is None ==> q.is_default == ps[k].is_default)
            &&& q.is_active == ps[k].is_active
            &&& q.created_at == ps[k].created_at
            &&& q.updated_at == ps[k].updated_at
        }),
{
}

/// Updating printer `id` leaves every other printer as it was, except that
/// making `id` the default clears their default flags.
pub proof fn law_update_leaves_others(ps: Seq<PrinterConfig>, id: i64, u: PrinterUpdate, k: int)
    requires
        0 <= k < ps.len(),
        ps[k].id != id,
    ensures
        printers_after_update(ps, id, u).len() == ps.len(),
        u.is_default == Some(true) ==> (printers_after_update(ps, id, u)[k] == (PrinterConfig { is_default: false, ..ps[k] })),
        u.is_default != Some(true) ==> (printers_after_update(ps, id, u)[k] == ps[k]),
{
}

} // verus!

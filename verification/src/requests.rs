//! Requests from the user interface and the answers built for it.

use vstd::prelude::*;
use crate::model::Tag;
use crate::numtext::dec_seq;
use crate::sync::local_server_url;
use crate::text::owned;

verus! {

/// A new raw material, with the tags to attach.
pub struct CreateMaterialRequest {
    pub code: String,
    pub name: String,
    pub category_id: Option<i64>,
    pub base_unit_id: i64,
    pub shelf_life_days: Option<i32>,
    pub tag_ids: Option<Vec<i64>>,
}

/// A new material category.
pub struct CreateCategoryRequest {
    pub code: String,
    pub name: String,
    pub sort_no: Option<i32>,
}

impl CreateCategoryRequest {
    /// The position to store: the one asked for, else first.
    pub fn sort_position(&self) -> (res: i32)
        ensures
            res == match self.sort_no { Some(n) => n, None => 0 },
    {
        match self.sort_no {
            Some(n) => n,
            None => 0,
        }
    }
}

/// A new material tag.
pub struct CreateTagRequest {
    pub code: String,
    pub name: String,
    pub color: Option<String>,
}

/// A new supplier.
pub struct CreateSupplierRequest {
    pub name: String,
    pub phone: Option<String>,
    pub contact_person: Option<String>,
}

/// A new recipe type.
pub struct CreateRecipeTypeRequest {
    pub code: String,
    pub name: String,
    pub description: Option<String>,
    pub sort_no: Option<i32>,
}

impl CreateRecipeTypeRequest {
    /// The position to store: the one asked for, else first.
    pub fn sort_position(&self) -> (res: i32)
        ensures
            res == match self.sort_no { Some(n) => n, None => 0 },
    {
        match self.sort_no {
            Some(n) => n,
            None => 0,
        }
    }
}

/// A new order.
pub struct CreateOrderRequest {
    pub source: String,
    pub dine_type: String,
    pub table_no: Option<String>,
}

/// A new product of a supplier on a sales channel.
pub struct CreateSupplierProductRequest {
    pub product_name: String,
    pub supplier_name: String,
    pub channel: String,
}

/// New data for a supplier's product.
pub struct UpdateSupplierProductRequest {
    pub id: i64,
    pub product_name: String,
    pub supplier_name: String,
    pub channel: String,
}

/// A record that uses another one, by id and name.
pub struct DependentRef {
    pub id: i64,
    pub name: String,
}

/// What uses a recipe: menu items and recipes that contain it.
pub struct RecipeDependents {
    pub menu_items: Vec<DependentRef>,
    pub parent_recipes: Vec<DependentRef>,
}

/// Whether `refs` lists the `(id, name)` pairs of `pairs`, in order.
pub open spec fn refs_match(refs: Seq<DependentRef>, pairs: Seq<(i64, String)>) -> bool {
    &&& refs.len() == pairs.len()
    &&& forall|k: int| 0 <= k < refs.len() ==> #[trigger] refs[k].id == pairs[k].0 && refs[k].name@ == pairs[k].1@
}

/// The references made of `(id, name)` pairs, in order.
pub fn dependent_refs(pairs: Vec<(i64, String)>) -> (res: Vec<DependentRef>)
    ensures
        refs_match(res@, pairs@),
{
    let mut out: Vec<DependentRef> = Vec::new();
    let mut i: usize = 0;
    while i < pairs.len()
        invariant
            i <= pairs.len(),
            refs_match(out@, pairs@.take(i as int)),
        decreases pairs.len() - i,
    {
        let (id, name) = &pairs[i];
        out.push(DependentRef { id: *id, name: name.clone() });
        i = i + 1;
    }
    assert(pairs@.take(pairs.len() as int) =~= pairs@);
    out
}

impl RecipeDependents {
    /// The dependents of a recipe from the `(id, name)` pairs of its menu items
    /// and of its parent recipes.
    pub fn from_pairs(menu_items: Vec<(i64, String)>, parent_recipes: Vec<(i64, String)>) -> (res: Self)
        ensures
            refs_match(res.menu_items@, menu_items@),
            refs_match(res.parent_recipes@, parent_recipes@),
    {
        RecipeDependents { menu_items: dependent_refs(menu_items), parent_recipes: dependent_refs(parent_recipes) }
    }
}

/// The answer to a new order: its id and number.
pub struct CreateOrderResponse {
    pub id: i64,
    pub order_no: String,
}

/// One part of a combo: a menu item and how many of it.
pub struct ComboComponentInput {
    pub component_item_id: i64,
    pub qty: i32,
}

/// The `(menu item, quantity)` pairs of a combo's parts, in order.
pub fn combo_pairs(components: &[ComboComponentInput]) -> (res: Vec<(i64, i32)>)
    ensures
        res@.len() == components@.len(),
        forall|k: int| 0 <= k < res@.len() ==> #[trigger] res@[k] == (components@[k].component_item_id, components@[k].qty),
{
    let mut out: Vec<(i64, i32)> = Vec::new();
    let mut i: usize = 0;
    while i < components.len()
        invariant
            i <= components.len(),
            out@.len() == i,
            forall|k: int| 0 <= k < i ==> #[trigger] out@[k] == (components@[k].component_item_id, components@[k].qty),
        decreases components.len() - i,
    {
        out.push((components[i].component_item_id, components[i].qty));
        i = i + 1;
    }
    out
}

/// A new printer.
pub struct CreatePrinterRequest {
    pub name: String,
    pub printer_type: String,
    pub connection_type: String,
    pub feie_user: Option<String>,
    pub feie_ukey: Option<String>,
    pub feie_sn: Option<String>,
    pub feie_key: Option<String>,
    pub lan_ip: Option<String>,
    pub lan_port: Option<i32>,
    pub paper_width: Option<String>,
    pub is_default: Option<bool>,
}

impl CreatePrinterRequest {
    /// The port, paper width and default flag to store: port 9100, 80 mm paper
    /// and not the default printer unless asked otherwise.
    pub fn stored_settings(&self) -> (res: (i32, String, bool))
        ensures
            res.0 == match self.lan_port { Some(p) => p, None => 9100i32 },
            res.1@ == match self.paper_width { Some(w) => w@, None => "80mm"@ },
            res.2 == (self.is_default == Some(true)),
    {
        let port = match self.lan_port {
            Some(p) => p,
            None => 9100,
        };
        let width = match &self.paper_width {
            Some(w) => w.clone(),
            None => owned("80mm"),
        };
        let default = match self.is_default {
            Some(b) => b,
            None => false,
        };
        (port, width, default)
    }
}

/// A raw print job for a given printer.
pub struct SendPrintTaskRequest {
    pub printer_id: i64,
    pub task_type: String,
    pub ref_type: Option<String>,
    pub ref_id: Option<i64>,
    pub content: String,
}

/// Whether the web server for tablets runs, and where.
pub struct WebServerStatus {
    pub running: bool,
    pub port: Option<u16>,
    pub url: Option<String>,
}

impl WebServerStatus {
    /// The status for a server listening on `port`, if one runs; its address
    /// uses the LAN address `ip` when known.
    pub fn of(port: Option<u16>, ip: Option<&str>) -> (res: Self)
        ensures
            res.running == port is Some,
            res.port == port,
            match port {
                Some(p) => res.url is Some && res.url->0@ == "http://"@ + (match ip { Some(a) => a@, None => "127.0.0.1"@ }) + ":"@ + dec_seq(p as nat),
                None => res.url is None,
            },
    {
        match port {
            Some(p) => WebServerStatus { running: true, port: Some(p), url: Some(local_server_url(ip, p)) },
            None => WebServerStatus { running: false, port: None, url: None },
        }
    }
}

/// The tags of rows `(material id, tag)` that belong to material `id`, in row
/// order.
pub open spec fn tags_of(rows: Seq<(i64, Tag)>, id: i64) -> Seq<Tag>
    decreases rows.len(),
{
    if rows.len() == 0 {
        Seq::empty()
    } else {
        let rest = tags_of(rows.drop_last(), id);
        if rows.last().0 == id {
            rest.push(rows.last().1)
        } else {
            rest
        }
    }
}

fn copy_tag(t: &Tag) -> (res: Tag)
    ensures
        res == *t,
{
    Tag {
        id: t.id,
        code: t.code.clone(),
        name: t.name.clone(),
        color: match &t.color {
            Some(c) => Some(c.clone()),
            None => None,
        },
        is_active: t.is_active,
    }
}

/// The tags of each listed material, gathered from rows `(material id, tag)`:
/// entry `k` holds the tags of `material_ids[k]` in row order.
pub fn group_tags(material_ids: &[i64], rows: &[(i64, Tag)]) -> (res: Vec<Vec<Tag>>)
    ensures
        res@.len() == material_ids@.len(),
        forall|k: int| 0 <= k < res@.len() ==> #[trigger] res@[k]@ == tags_of(rows@, material_ids@[k]),
{
    let mut out: Vec<Vec<Tag>> = Vec::new();
    let mut i: usize = 0;
    while i < material_ids.len()
        invariant
            i <= material_ids.len(),
            out@.len() == i,
            forall|k: int| 0 <= k < i ==> #[trigger] out@[k]@ == tags_of(rows@, material_ids@[k]),
        decreases material_ids.len() - i,
    {
        let id = material_ids[i];
        let mut tags: Vec<Tag> = Vec::new();
        let mut j: usize = 0;
        while j < rows.len()
            invariant
                j <= rows.len(),
                tags@ == tags_of(rows@.take(j as int), id),
            decreases rows.len() - j,
        {
            assert(rows@.take(j + 1).drop_last() =~= rows@.take(j as int));
            if rows[j].0 == id {
                tags.push(copy_tag(&rows[j].1));
            }
            j = j + 1;
        }
        assert(rows@.take(rows.len() as int) =~= rows@);
        out.push(tags);
        i = i + 1;
    }
    out
}

} // verus!

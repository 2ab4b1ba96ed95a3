//! Records exchanged with the storage layer and the user interface.

use vstd::prelude::*;

verus! {

/// A raw-material category.
#[derive(Clone, Debug)]
pub struct MaterialCategory {
    pub id: i64,
    pub code: String,
    pub name: String,
    pub sort_no: i32,
    pub is_active: bool,
}

/// A material tag.
#[derive(Clone, Debug)]
pub struct Tag {
    pub id: i64,
    pub code: String,
    pub name: String,
    pub color: Option<String>,
    pub is_active: bool,
}

/// A supplier.
#[derive(Clone, Debug)]
pub struct Supplier {
    pub id: i64,
    pub name: String,
    pub phone: Option<String>,
    pub contact_person: Option<String>,
    pub address: Option<String>,
    pub note: Option<String>,
    pub is_active: bool,
    pub created_at: String,
}

/// A product offered by a supplier on a sales channel.
#[derive(Clone, Debug)]
pub struct SupplierProduct {
    pub id: i64,
    pub product_name: String,
    pub supplier_name: String,
    pub channel: String,
}

/// A kind of recipe component.
#[derive(Clone, Debug)]
pub struct RecipeComponentType {
    pub id: i64,
    pub code: String,
    pub name: String,
    pub description: Option<String>,
    pub category: String,
    pub sort_no: i32,
    pub is_active: bool,
}

/// A recipe type.
#[derive(Clone, Debug)]
pub struct RecipeType {
    pub id: i64,
    pub code: String,
    pub name: String,
    pub description: Option<String>,
    pub sort_no: i32,
    pub is_system: bool,
    pub is_active: bool,
}

/// A menu category.
#[derive(Clone, Debug)]
pub struct MenuCategory {
    pub id: i64,
    pub name: String,
    pub sort_no: i32,
    pub is_active: bool,
}

/// A kitchen work station.
#[derive(Clone, Debug)]
pub struct KitchenStation {
    pub id: i64,
    pub code: String,
    pub name: String,
    pub station_type: String,
    pub is_active: bool,
    pub sort_no: i32,
    pub printer_id: Option<i64>,
}

/// A kitchen ticket: one order's work at one station.
#[derive(Clone, Debug)]
pub struct KitchenTicket {
    pub id: i64,
    pub order_id: i64,
    pub station_id: i64,
    pub status: String,
    pub priority: i32,
    pub printed_at: Option<String>,
    pub started_at: Option<String>,
    pub finished_at: Option<String>,
    pub created_at: String,
}

/// A configured printer: a Feie cloud printer or a LAN printer.
#[derive(Clone, Debug)]
pub struct PrinterConfig {
    pub id: i64,
    pub name: String,
    pub printer_type: String,
    pub connection_type: String,
    pub feie_user: Option<String>,
    pub feie_ukey: Option<String>,
    pub feie_sn: Option<String>,
    pub feie_key: Option<String>,
    pub lan_ip: Option<String>,
    pub lan_port: i32,
    pub paper_width: String,
    pub is_default: bool,
    pub is_active: bool,
    pub created_at: String,
    pub updated_at: String,
}

/// A recorded print job.
#[derive(Clone, Debug)]
pub struct PrintTask {
    pub id: i64,
    pub task_type: String,
    pub ref_type: Option<String>,
    pub ref_id: Option<i64>,
    pub content: String,
    pub status: String,
    pub printer_id: Option<i64>,
    pub printer_name: Option<String>,
    pub created_at: String,
    pub printed_at: Option<String>,
    pub error_msg: Option<String>,
}

/// An in-app notification.
#[derive(Clone, Debug)]
pub struct Notification {
    pub id: i64,
    pub notification_type: String,
    pub title: String,
    pub message: String,
    pub severity: String,
    pub ref_type: Option<String>,
    pub ref_id: Option<i64>,
    pub is_read: bool,
    pub read_at: Option<String>,
    pub created_at: String,
}

/// A change of a customer's loyalty points.
#[derive(Clone, Debug)]
pub struct LoyaltyTxn {
    pub id: i64,
    pub customer_id: i64,
    pub order_id: Option<i64>,
    pub delta: i64,
    pub reason: String,
    pub created_at: String,
}

/// A dining table.
#[derive(Clone, Debug)]
pub struct RestaurantTable {
    pub id: i64,
    pub table_no: String,
    pub label: Option<String>,
    pub is_active: bool,
    pub sort_no: i64,
    pub created_at: String,
}

/// A stock-take session.
#[derive(Clone, Debug)]
pub struct Stocktake {
    pub id: i64,
    pub stocktake_no: String,
    pub status: String,
    pub operator: Option<String>,
    pub note: Option<String>,
    pub created_at: String,
    pub completed_at: Option<String>,
}

/// A rendered print preview: HTML, plain lines and the paper width.
#[derive(Clone, Debug)]
pub struct PrintPreviewResult {
    pub html: String,
    pub lines: Vec<String>,
    pub paper_width: String,
}

/// A kind of printed ticket and which fields it shows.
#[derive(Clone, Debug)]
pub struct PrintTicketType {
    pub id: i64,
    pub code: String,
    pub name: String,
    pub description: Option<String>,
    pub is_active: bool,
    pub is_default: bool,
    pub show_price: bool,
    pub show_seq: bool,
    pub show_note_field: bool,
    pub station_id: Option<i64>,
    pub paper_width: String,
    pub font_size: String,
    pub cut_mode: String,
    pub print_speed: String,
    pub print_density: String,
    pub show_order_no: bool,
    pub show_table_no: bool,
    pub show_dine_type: bool,
    pub show_item_name: bool,
    pub show_item_qty: bool,
    pub show_item_price: bool,
    pub show_item_subtotal: bool,
    pub show_item_spec: bool,
    pub show_item_note: bool,
    pub show_created_at: bool,
    pub show_total_amount: bool,
    pub show_lot_no: bool,
    pub show_qty_info: bool,
    pub show_expiry_date: bool,
    pub show_supplier: bool,
    pub created_at: String,
    pub updated_at: String,
}

/// A new kind of printed ticket.
#[derive(Clone, Debug)]
pub struct CreatePrintTicketTypeRequest {
    pub code: String,
    pub name: String,
    pub description: Option<String>,
    pub is_active: bool,
    pub is_default: bool,
    pub show_price: bool,
    pub show_seq: bool,
    pub show_note_field: bool,
    pub station_id: Option<i64>,
    pub paper_width: String,
    pub font_size: String,
    pub cut_mode: String,
    pub print_speed: String,
    pub print_density: String,
    pub show_order_no: bool,
    pub show_table_no: bool,
    pub show_dine_type: bool,
    pub show_item_name: bool,
    pub show_item_qty: bool,
    pub show_item_price: bool,
    pub show_item_subtotal: bool,
    pub show_item_spec: bool,
    pub show_item_note: bool,
    pub show_created_at: bool,
    pub show_total_amount: bool,
    pub show_lot_no: bool,
    pub show_qty_info: bool,
    pub show_expiry_date: bool,
    pub show_supplier: bool,
}

/// New settings for a kind of printed ticket.
#[derive(Clone, Debug)]
pub struct UpdatePrintTicketTypeRequest {
    pub name: String,
    pub code: String,
    pub description: Option<String>,
    pub is_active: bool,
    pub is_default: bool,
    pub show_price: bool,
    pub show_seq: bool,
    pub show_note_field: bool,
    pub station_id: Option<i64>,
    pub paper_width: String,
    pub font_size: String,
    pub cut_mode: String,
    pub print_speed: String,
    pub print_density: String,
    pub show_order_no: bool,
    pub show_table_no: bool,
    pub show_dine_type: bool,
    pub show_item_name: bool,
    pub show_item_qty: bool,
    pub show_item_price: bool,
    pub show_item_subtotal: bool,
    pub show_item_spec: bool,
    pub show_item_note: bool,
    pub show_created_at: bool,
    pub show_total_amount: bool,
    pub show_lot_no: bool,
    pub show_qty_info: bool,
    pub show_expiry_date: bool,
    pub show_supplier: bool,
}

} // verus!

//! Friendly texts for database and printer failures.

use vstd::prelude::*;
use crate::text::{owned, seq_contains, str_contains, to_lowercase, lowercase_text};

verus! {

/// The user-facing text for a database error message `s`.
pub open spec fn db_err_text(s: Seq<char>) -> Seq<char> {
    if seq_contains(s, "UNIQUE constraint failed: materials.code"@) {
        "原料编号已存在，请更换编号后重试"@
    } else if seq_contains(s, "UNIQUE constraint failed: materials.name"@) {
        "原料名称已存在"@
    } else if seq_contains(s, "UNIQUE constraint failed: recipes.code"@) {
        "配方编号已存在，请更换编号后重试"@
    } else if seq_contains(s, "UNIQUE constraint failed: menu_items.code"@) {
        "菜品编号已存在"@
    } else if seq_contains(s, "UNIQUE constraint failed: suppliers.name"@) {
        "供应商名称已存在"@
    } else if seq_contains(s, "UNIQUE constraint failed: tags.code"@) {
        "标签编号已存在"@
    } else if seq_contains(s, "UNIQUE constraint failed: material_categories.code"@) {
        "分类编号已存在"@
    } else if seq_contains(s, "UNIQUE constraint failed"@) {
        "记录已存在，请修改后重试"@
    } else if seq_contains(s, "FOREIGN KEY constraint failed"@) {
        "关联数据不存在或已被删除"@
    } else if seq_contains(s, "NOT NULL constraint failed"@) {
        "必填字段不能为空"@
    } else {
        s
    }
}


/// Maps a database error message to a user-facing text; messages that match no
/// known constraint failure are returned unchanged.
pub fn db_err(message: &str) -> (res: String)
    ensures
        res@ == db_err_text(message@),
{
    let s = message;
    if str_contains(s, "UNIQUE constraint failed: materials.code") {
        owned("原料编号已存在，请更换编号后重试")
    } else if str_contains(s, "UNIQUE constraint failed: materials.name") {
        owned("原料名称已存在")
    } else if str_contains(s, "UNIQUE constraint failed: recipes.code") {
        owned("配方编号已存在，请更换编号后重试")
    } else if str_contains(s, "UNIQUE constraint failed: menu_items.code") {
        owned("菜品编号已存在")
    } else if str_contains(s, "UNIQUE constraint failed: suppliers.name") {
        owned("供应商名称已存在")
    } else if str_contains(s, "UNIQUE constraint failed: tags.code") {
        owned("标签编号已存在")
    } else if str_contains(s, "UNIQUE constraint failed: material_categories.code") {
        owned("分类编号已存在")
    } else if str_contains(s, "UNIQUE constraint failed") {
        owned("记录已存在，请修改后重试")
    } else if str_contains(s, "FOREIGN KEY constraint failed") {
        owned("关联数据不存在或已被删除")
    } else if str_contains(s, "NOT NULL constraint failed") {
        owned("必填字段不能为空")
    } else {
        owned(s)
    }
}

/// The user-facing text for a printer failure `raw`, judged on its lower-cased
/// form `s`.
pub open spec fn print_err_text(raw: Seq<char>) -> Seq<char> {
    let s = lowercase_text(raw);
    let c = |p: Seq<char>| seq_contains(s, p);
    let feie = c("飛鵝"@) || c("feie"@) || c("api"@);
    if feie && (c("不在线"@) || c("offline"@)) {
        "打印机不在线，请检查打印机电源和网络"@
    } else if feie && c("sn"@) && (c("错"@) || c("invalid"@) || c("exist"@)) {
        "打印机 SN 无效或未注册，请重新绑定"@
    } else if feie && (c("user"@) || c("ukey"@) || c("sig"@)) {
        "飞鹅账号凭证错误（USER/UKEY），请检查打印设置"@
    } else if feie && (c("timeout"@) || c("超时"@) || c("timed out"@)) {
        "连接飞鹅服务器超时，请检查网络"@
    } else if feie && c("print"@) && c("fail"@) {
        "打印任务发送失败，打印机可能正在处理其他任务"@
    } else if c("connection refused"@) || c("connection reset"@) {
        "无法连接到打印机，请检查 IP 地址和端口"@
    } else if c("timed out"@) || c("timeout"@) {
        "连接打印机超时，请确认打印机已开机且在同一局域网"@
    } else if c("未配置"@) || c("not configured"@) {
        "打印机未配置，请在打印设置中添加打印机"@
    } else if c("no printer"@) || c("找不到"@) {
        "未找到默认打印机，请在打印设置中设置默认打印机"@
    } else {
        raw
    }
}

/// Maps a printer failure to a user-facing text; failures that match no known
/// kind are returned unchanged.
pub fn print_err(raw: String) -> (res: String)
    ensures
        res@ == print_err_text(raw@),
{
    let lowered = to_lowercase(raw.as_str());
    let s = lowered.as_str();
    if str_contains(s, "飛鵝") || str_contains(s, "feie") || str_contains(s, "api") {
        if str_contains(s, "不在线") || str_contains(s, "offline") {
            return owned("打印机不在线，请检查打印机电源和网络");
        }
        if str_contains(s, "sn") && (str_contains(s, "错") || str_contains(s, "invalid") || str_contains(s, "exist")) {
            return owned("打印机 SN 无效或未注册，请重新绑定");
        }
        if str_contains(s, "user") || str_contains(s, "ukey") || str_contains(s, "sig") {
            return owned("飞鹅账号凭证错误（USER/UKEY），请检查打印设置");
        }
        if str_contains(s, "timeout") || str_contains(s, "超时") || str_contains(s, "timed out") {
            return owned("连接飞鹅服务器超时，请检查网络");
        }
        if str_contains(s, "print") && str_contains(s, "fail") {
            return owned("打印任务发送失败，打印机可能正在处理其他任务");
        }
    }
    if str_contains(s, "connection refused") || str_contains(s, "connection reset") {
        return owned("无法连接到打印机，请检查 IP 地址和端口");
    }
    if str_contains(s, "timed out") || str_contains(s, "timeout") {
        return owned("连接打印机超时，请确认打印机已开机且在同一局域网");
    }
    if str_contains(s, "未配置") || str_contains(s, "not configured") {
        return owned("打印机未配置，请在打印设置中添加打印机");
    }
    if str_contains(s, "no printer") || str_contains(s, "找不到") {
        return owned("未找到默认打印机，请在打印设置中设置默认打印机");
    }
    raw
}

} // verus!

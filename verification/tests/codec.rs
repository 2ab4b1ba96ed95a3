use cuckoo::codec::{check_backup_header, csv_quote, data_url, encode_base64, mime_from_ext};
use cuckoo::messages::{db_err, print_err};

#[test]
fn base64_padding() {
    assert_eq!(encode_base64(b""), "");
    assert_eq!(encode_base64(b"M"), "TQ==");
    assert_eq!(encode_base64(b"Ma"), "TWE=");
    assert_eq!(encode_base64(b"Man"), "TWFu");
    assert_eq!(encode_base64(&[0xFF, 0xFE, 0xFD, 0x00]), "//79AA==");
}

#[test]
fn mime_by_extension() {
    assert_eq!(mime_from_ext("logo.PNG"), "image/png");
    assert_eq!(mime_from_ext("a.jpeg"), "image/jpeg");
    assert_eq!(mime_from_ext("a.gif"), "image/gif");
    assert_eq!(mime_from_ext("a.webp"), "image/webp");
    assert_eq!(mime_from_ext("icon.svg"), "image/svg+xml");
    assert_eq!(mime_from_ext("photo.bmp"), "image/jpeg");
}

#[test]
fn data_url_of_bytes() {
    assert_eq!(data_url("image/png", b"Man"), "data:image/png;base64,TWFu");
}

#[test]
fn csv_quotes_are_doubled() {
    assert_eq!(csv_quote("plain"), "\"plain\"");
    assert_eq!(csv_quote("say \"hi\""), "\"say \"\"hi\"\"\"");
}

#[test]
fn backup_header_check() {
    let mut head = b"SQLite format 3".to_vec();
    head.push(0);
    assert_eq!(check_backup_header(&head), Ok(()));
    assert_eq!(check_backup_header(b"SQLite format"), Err("所选文件不是有效的 SQLite 数据库".to_string()));
    assert_eq!(check_backup_header(b"PK\x03\x04 not sqlite at all"), Err("所选文件不是有效的 SQLite 数据库".to_string()));
}

#[test]
fn database_errors_become_friendly() {
    assert_eq!(db_err("UNIQUE constraint failed: materials.code"), "原料编号已存在，请更换编号后重试");
    assert_eq!(db_err("UNIQUE constraint failed: tags.code"), "标签编号已存在");
    assert_eq!(db_err("UNIQUE constraint failed: orders.order_no"), "记录已存在，请修改后重试");
    assert_eq!(db_err("FOREIGN KEY constraint failed"), "关联数据不存在或已被删除");
    assert_eq!(db_err("NOT NULL constraint failed: x"), "必填字段不能为空");
    assert_eq!(db_err("disk I/O error"), "disk I/O error");
}

#[test]
fn printer_errors_become_friendly() {
    assert_eq!(print_err("Feie API: printer OFFLINE".to_string()), "打印机不在线，请检查打印机电源和网络");
    assert_eq!(print_err("feie: sn invalid".to_string()), "打印机 SN 无效或未注册，请重新绑定");
    assert_eq!(print_err("feie sig mismatch".to_string()), "飞鹅账号凭证错误（USER/UKEY），请检查打印设置");
    assert_eq!(print_err("Connection refused (os error 111)".to_string()), "无法连接到打印机，请检查 IP 地址和端口");
    assert_eq!(print_err("operation timed out".to_string()), "连接打印机超时，请确认打印机已开机且在同一局域网");
    assert_eq!(print_err("printer not configured".to_string()), "打印机未配置，请在打印设置中添加打印机");
    assert_eq!(print_err("no printer found".to_string()), "未找到默认打印机，请在打印设置中设置默认打印机");
    assert_eq!(print_err("Paper Jam".to_string()), "Paper Jam");
}

#[test]
fn base64_length_alphabet_padding_and_decoding() {
    fn value(c: u8) -> u32 {
        match c {
            b'A'..=b'Z' => (c - b'A') as u32,
            b'a'..=b'z' => (c - b'a') as u32 + 26,
            b'0'..=b'9' => (c - b'0') as u32 + 52,
            b'+' => 62,
            _ => 63,
        }
    }
    for n in 0..20usize {
        let data: Vec<u8> = (0..n).map(|i| (i * 37 + 250) as u8).collect();
        let r = encode_base64(&data);
        assert_eq!(r.len(), 4 * ((n + 2) / 3));
        let pad = (3 - n % 3) % 3;
        let bytes = r.as_bytes();
        for (k, c) in bytes.iter().enumerate() {
            if k < bytes.len() - pad {
                assert!(c.is_ascii_alphanumeric() || *c == b'+' || *c == b'/');
            } else {
                assert_eq!(*c, b'=');
            }
        }
        let mut back = Vec::new();
        for g in bytes.chunks(4) {
            let v: Vec<u32> = g.iter().map(|c| value(*c)).collect();
            back.push((v[0] * 4 + v[1] / 16) as u8);
            if g[2] != b'=' {
                back.push(((v[1] % 16) * 16 + v[2] / 4) as u8);
            }
            if g[3] != b'=' {
                back.push(((v[2] % 4) * 64 + v[3]) as u8);
            }
        }
        assert_eq!(back, data);
    }
}

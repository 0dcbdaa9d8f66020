use posprint::receipt::build_receipt;
use posprint::receipt::build_receipt_now;
use posprint::receipt::push_item_line;
use posprint::types::PrinterConfig;
use posprint::types::SaleLine;

fn contains(haystack: &[u8], needle: &[u8]) -> bool {
    if needle.is_empty() {
        return true;
    }
    if haystack.len() < needle.len() {
        return false;
    }
    (0..=haystack.len() - needle.len()).any(|i| &haystack[i..i + needle.len()] == needle)
}

fn profile(model: &str, target: &str) -> PrinterConfig {
    PrinterConfig {
        id: "p1".to_string(),
        name: "Counter".to_string(),
        model: Some(model.to_string()),
        header: "Sample Shop".to_string(),
        address: "1 Main Street".to_string(),
        city: "Springfield".to_string(),
        phone: "000-0000".to_string(),
        vat: "VAT 00000000000".to_string(),
        printer_port: target.to_string(),
        hydra_path: None,
        hydra_op: None,
        hydra_dep: None,
    }
}

#[test]
fn long_name_truncated_to_24_bytes() {
    let mut buf = Vec::new();
    // 30 characters
    push_item_line(&mut buf, "abcdefghijklmnopqrstuvwxyz0123", 1, 100, "generic");
    assert_eq!(&buf[..24], b"abcdefghijklmnopqrstuvwx");
    assert_eq!(&buf[24..27], b"  1");
}

#[test]
fn short_name_padded_to_24_bytes() {
    let mut buf = Vec::new();
    push_item_line(&mut buf, "Bread", 7, 1250, "generic");
    let mut expected = Vec::new();
    expected.extend_from_slice(b"Bread");
    expected.extend_from_slice(&[b' '; 19]);
    expected.extend_from_slice(b"  7");
    expected.extend_from_slice(b"   ");
    expected.push(0xD5);
    expected.extend_from_slice(b" 12.50");
    expected.push(b'\n');
    assert_eq!(buf, expected);
}

#[test]
fn item_line_on_epson_uses_cp1252_euro() {
    let mut buf = Vec::new();
    push_item_line(&mut buf, "Tea", 2, 300, "epson");
    assert_eq!(buf[30], 0x80);
}

#[test]
fn receipt_scenario_bixolon_tcp() {
    let printer = profile("bixolon", "192.168.1.21:9101");
    let lines = vec![SaleLine { name: "Margherita".to_string(), price: 750, qty: 2 }];
    let buf = build_receipt(&printer, &lines, 1500, "01/01/2024 12:00");

    // reset, then code page 19 for bixolon
    assert_eq!(&buf[..2], &[0x1B, 0x40]);
    assert!(contains(&buf, &[0x1B, 0x74, 19]));

    // the item line: name padded to 24, qty 2, three spaces, Euro 0xD5, 15.00
    let mut item = Vec::new();
    item.extend_from_slice(b"Margherita              ");
    item.extend_from_slice(b"  2");
    item.extend_from_slice(b"   ");
    item.push(0xD5);
    item.extend_from_slice(b" 15.00");
    item.push(b'\n');
    assert!(contains(&buf, &item));

    // the totals line: TOTAL: plus 25 spaces, the Euro byte, the grand total
    let mut totals = Vec::new();
    totals.extend_from_slice(b"TOTAL:");
    totals.extend_from_slice(&[b' '; 25]);
    totals.push(0xD5);
    totals.extend_from_slice(b" 15.00");
    totals.push(b'\n');
    assert!(contains(&buf, &totals));

    // the date line
    assert!(contains(&buf, b"\nDate: 01/01/2024 12:00\n"));

    // the footer notice, the 4-line feed, and the default full cut at the end
    assert!(contains(&buf, b"\nNON-FISCAL document\nThank you!\n"));
    assert_eq!(&buf[buf.len() - 6..], &[0x1B, 0x64, 4, 0x1D, 0x56, 0]);
}

#[test]
fn separator_lines_are_44_dashes() {
    let printer = profile("generic", "10.0.0.1:9100");
    let buf = build_receipt(&printer, &vec![], 0, "02/02/2024 08:30");
    let mut sep = vec![b'-'; 44];
    sep.push(b'\n');
    assert!(contains(&buf, &sep));
}

#[test]
fn cut_directive_per_model() {
    let lines: Vec<SaleLine> = Vec::new();
    let hydra = build_receipt(&profile("hydra", "h:9102"), &lines, 0, "t");
    assert_eq!(&hydra[hydra.len() - 2..], &[0x1B, 0x69]);
    let custom = build_receipt(&profile("custom", "c:9100"), &lines, 0, "t");
    assert_eq!(&custom[custom.len() - 2..], &[0x1B, 0x6D]);
    let epson = build_receipt(&profile("epson", "e:9100"), &lines, 0, "t");
    assert_eq!(&epson[epson.len() - 4..], &[0x1D, 0x56, 66, 0]);
    let generic = build_receipt(&profile("generic", "g:9100"), &lines, 0, "t");
    assert_eq!(&generic[generic.len() - 3..], &[0x1D, 0x56, 0]);
}

#[test]
fn code_page_per_model() {
    let lines: Vec<SaleLine> = Vec::new();
    for (model, page) in [
        ("bixolon", 19u8),
        ("epson", 16),
        ("rp850use", 16),
        ("hydra", 0),
        ("custom", 19),
        ("generic", 19),
    ] {
        let buf = build_receipt(&profile(model, "x:9100"), &lines, 0, "t");
        assert_eq!(&buf[2..5], &[0x1B, 0x74, page], "model {}", model);
    }
}

#[test]
fn header_lines_and_styles_in_order() {
    let printer = profile("generic", "10.0.0.1:9100");
    let buf = build_receipt(&printer, &vec![], 0, "t");
    let mut expected = Vec::new();
    expected.extend_from_slice(&[0x1B, 0x40]);
    expected.extend_from_slice(&[0x1B, 0x74, 19]);
    expected.extend_from_slice(&[0x1B, 0x61, 1]);
    expected.extend_from_slice(&[0x1B, 0x45, 1]);
    expected.extend_from_slice(&[0x1B, 0x21, 0x30]);
    expected.extend_from_slice(b"Sample Shop\n");
    expected.extend_from_slice(&[0x1B, 0x45, 0]);
    expected.extend_from_slice(&[0x1B, 0x21, 0x00]);
    expected.extend_from_slice(b"1 Main Street\n");
    expected.extend_from_slice(b"Springfield\n");
    expected.extend_from_slice(b"000-0000\n");
    expected.extend_from_slice(b"VAT 00000000000\n\n");
    assert_eq!(&buf[..expected.len()], &expected[..]);
}

#[test]
fn receipt_with_current_time_has_a_date_line() {
    let printer = profile("generic", "10.0.0.1:9100");
    let lines = vec![SaleLine { name: "Espresso".to_string(), price: 120, qty: 1 }];
    let buf = build_receipt_now(&printer, &lines, 120);
    assert!(contains(&buf, b"\nDate: "));
    // DD/MM/YYYY HH:MM after the label
    let pos = (0..buf.len() - 7).find(|&i| &buf[i..i + 7] == b"\nDate: ").unwrap();
    let ts = &buf[pos + 7..pos + 23];
    assert_eq!(ts[2], b'/');
    assert_eq!(ts[5], b'/');
    assert_eq!(ts[10], b' ');
    assert_eq!(ts[13], b':');
}

#[test]
fn grand_total_is_not_recomputed() {
    // the caller-supplied total is printed as given, even when it differs
    // from the sum of the line totals
    let printer = profile("generic", "10.0.0.1:9100");
    let lines = vec![SaleLine { name: "Item".to_string(), price: 100, qty: 1 }];
    let buf = build_receipt(&printer, &lines, 999, "t");
    let mut totals = Vec::new();
    totals.extend_from_slice(b"TOTAL:");
    totals.extend_from_slice(&[b' '; 25]);
    totals.push(0xD5);
    totals.extend_from_slice(b"  9.99");
    assert!(contains(&buf, &totals));
}

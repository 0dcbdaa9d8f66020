//! The fiscal sale: XML document building, target validation, URL building,
//! and response interpretation for the HTTP+XML certification device.
//!
//! The document is assembled entirely in memory; the HTTP POST itself is the
//! caller's transport concern and happens outside this crate's logic.

use vstd::prelude::*;

use crate::numfmt::dec_chars;
use crate::numfmt::money2_chars;
use crate::numfmt::push_dec_str;
use crate::numfmt::push_money2_str;
use crate::numfmt::push_qty3_str;
use crate::numfmt::qty3_chars;
use crate::text::str_eq;
use crate::types::Payment;
use crate::types::PrinterConfig;
use crate::types::SaleItem;
use vstd::slice::slice_index_get;

verus! {

// ---------------------------------------------------------------------------
// XML escaping
// ---------------------------------------------------------------------------
/// The rendering of one character in escaped text: the five XML
/// metacharacters become entities, everything else stands as itself.
pub open spec fn esc_char(c: char) -> Seq<char> {
    if c == '&' {
        "&amp;"@
    } else if c == '<' {
        "&lt;"@
    } else if c == '>' {
        "&gt;"@
    } else if c == '"' {
        "&quot;"@
    } else if c == '\'' {
        "&apos;"@
    } else {
        seq![c]
    }
}

/// The escaped rendering of the first `n` characters.
pub open spec fn esc_prefix(s: Seq<char>, n: int) -> Seq<char>
    decreases n,
{
    if n <= 0 {
        Seq::empty()
    } else {
        esc_prefix(s, n - 1) + esc_char(s[n - 1])
    }
}

/// The escaped rendering of a whole text.
pub open spec fn esc(s: Seq<char>) -> Seq<char> {
    esc_prefix(s, s.len() as int)
}

/// Appends the escaped rendering of `s`.
fn push_escaped(out: &mut String, s: &str)
    ensures
        final(out)@ == old(out)@ + esc(s@),
{
    let len = s.unicode_len();
    let mut i: usize = 0;
    while i < len
        invariant
            len == s@.len(),
            i <= len,
            out@ == old(out)@ + esc_prefix(s@, i as int),
        decreases len - i,
    {
        let c = s.get_char(i);
        if c == '&' {
            out.append("&amp;");
        } else if c == '<' {
            out.append("&lt;");
        } else if c == '>' {
            out.append("&gt;");
        } else if c == '"' {
            out.append("&quot;");
        } else if c == '\'' {
            out.append("&apos;");
        } else {
            out.push(c);
        }
        proof {
            assert(out@ =~= old(out)@ + esc_prefix(s@, i + 1 as int));
        }
        i += 1;
    }
}

/// Escapes free text for an XML attribute or content position.
pub fn xml_escape(s: &str) -> (r: String)
    ensures
        r@ == esc(s@),
{
    let mut out = String::new();
    push_escaped(&mut out, s);
    proof {
        assert(out@ =~= esc(s@));
    }
    out
}

// ---------------------------------------------------------------------------
// Payment-method normalization
// ---------------------------------------------------------------------------
/// ASCII lowercasing of one character.
pub open spec fn lower_char(c: char) -> char {
    if 0x41 <= c as int && c as int <= 0x5A {
        ((c as int) + 32) as char
    } else {
        c
    }
}

/// ASCII lowercasing of a text.
pub open spec fn ascii_lower(s: Seq<char>) -> Seq<char> {
    s.map_values(|c: char| lower_char(c))
}

/// The normalized payment type of a free-text method, case-insensitively:
/// cash/contanti, card/carta, electronic; anything else is Other.
pub open spec fn normalized_method(m: Seq<char>) -> Seq<char> {
    let l = ascii_lower(m);
    if l == "cash"@ || l == "contanti"@ {
        "Cash"@
    } else if l == "card"@ || l == "carta"@ {
        "Card"@
    } else if l == "electronic"@ {
        "Electronic"@
    } else {
        "Other"@
    }
}

/// ASCII-lowercases a text.
fn to_ascii_lower(s: &str) -> (r: String)
    ensures
        r@ == ascii_lower(s@),
{
    let len = s.unicode_len();
    let mut out = String::new();
    let mut i: usize = 0;
    while i < len
        invariant
            len == s@.len(),
            i <= len,
            out@ == ascii_lower(s@.take(i as int)),
        decreases len - i,
    {
        let c = s.get_char(i);
        let code = c as u32;
        if 65 <= code && code <= 90 {
            out.push(((code as u8) + 32) as char);
        } else {
            out.push(c);
        }
        proof {
            assert(s@.take(i + 1 as int).map_values(|c: char| lower_char(c)) =~= s@.take(
                i as int,
            ).map_values(|c: char| lower_char(c)).push(lower_char(s@[i as int])));
            assert(out@ =~= ascii_lower(s@.take(i + 1 as int)));
        }
        i += 1;
    }
    proof {
        assert(s@.take(len as int) =~= s@);
    }
    out
}

/// Normalizes a free-text payment method into its closed type label.
pub fn normalize_method(method: &str) -> (r: &'static str)
    ensures
        r@ == normalized_method(method@),
{
    let lowered = to_ascii_lower(method);
    let l = lowered.as_str();
    if str_eq(l, "cash") || str_eq(l, "contanti") {
        "Cash"
    } else if str_eq(l, "card") || str_eq(l, "carta") {
        "Card"
    } else if str_eq(l, "electronic") {
        "Electronic"
    } else {
        "Other"
    }
}

// ---------------------------------------------------------------------------
// The document
// ---------------------------------------------------------------------------
/// The item's VAT class: its code, or "A" if absent.
pub open spec fn vat_view(it: SaleItem) -> Seq<char> {
    match it.vat_code {
        Some(v) => v@,
        None => "A"@,
    }
}

/// One `Item` element line.
pub open spec fn item_el(it: SaleItem) -> Seq<char> {
    "  <Item desc=\""@ + esc(it.desc@) + "\" qty=\""@ + qty3_chars(it.qty as nat) + "\" price=\""@
        + money2_chars(it.price as nat) + "\" vat=\""@ + vat_view(it) + "\" />\n"@
}

/// One `Payment` element line.
pub open spec fn payment_el(p: Payment) -> Seq<char> {
    "  <Payment type=\""@ + normalized_method(p.method@) + "\" amount=\""@ + money2_chars(
        p.amount as nat,
    ) + "\" />\n"@
}

/// The `Item` elements of the first `n` items, in order.
pub open spec fn items_xml_prefix(items: Seq<SaleItem>, n: int) -> Seq<char>
    decreases n,
{
    if n <= 0 {
        Seq::empty()
    } else {
        items_xml_prefix(items, n - 1) + item_el(items[n - 1])
    }
}

/// The `Item` elements of all items, in order.
pub open spec fn items_xml(items: Seq<SaleItem>) -> Seq<char> {
    items_xml_prefix(items, items.len() as int)
}

/// The `Payment` elements of the first `n` payments, in order.
pub open spec fn payments_xml_prefix(payments: Seq<Payment>, n: int) -> Seq<char>
    decreases n,
{
    if n <= 0 {
        Seq::empty()
    } else {
        payments_xml_prefix(payments, n - 1) + payment_el(payments[n - 1])
    }
}

/// The `Payment` elements of all payments, in order.
pub open spec fn payments_xml(payments: Seq<Payment>) -> Seq<char> {
    payments_xml_prefix(payments, payments.len() as int)
}

/// The `Operator` element: present only for a present, non-empty code.
pub open spec fn op_el(op: Option<Seq<char>>) -> Seq<char> {
    match op {
        Some(o) => if o.len() > 0 {
            "  <Operator>"@ + esc(o) + "</Operator>\n"@
        } else {
            Seq::empty()
        },
        None => Seq::empty(),
    }
}

/// The whole fiscal document: declaration, root, escaped header, optional
/// operator, the items, the running-total placeholder, the payments, and the
/// closing marker.
pub open spec fn xml_doc(
    header: Seq<char>,
    items: Seq<SaleItem>,
    payments: Seq<Payment>,
    op: Option<Seq<char>>,
) -> Seq<char> {
    "<?xml version=\"1.0\" encoding=\"UTF-8\"?>\n<FiscalReceipt>\n"@ + "  <Header>"@ + esc(header)
        + "</Header>\n"@ + op_el(op) + items_xml(items) + "  <Total/>\n"@ + payments_xml(payments)
        + "  <CloseFiscalReceipt/>\n</FiscalReceipt>\n"@
}

/// The view of an optional operator code.
pub open spec fn opt_str_view(op: Option<&str>) -> Option<Seq<char>> {
    match op {
        Some(o) => Some(o@),
        None => None,
    }
}

/// Appends one `Item` element line.
fn push_item_el(out: &mut String, it: &SaleItem)
    ensures
        final(out)@ == old(out)@ + item_el(*it),
{
    out.append("  <Item desc=\"");
    push_escaped(out, it.desc.as_str());
    out.append("\" qty=\"");
    push_qty3_str(out, it.qty);
    out.append("\" price=\"");
    push_money2_str(out, it.price);
    out.append("\" vat=\"");
    match &it.vat_code {
        Some(v) => out.append(v.as_str()),
        None => out.append("A"),
    }
    out.append("\" />\n");
    proof {
        assert(out@ =~= old(out)@ + item_el(*it));
    }
}

/// Appends one `Payment` element line.
fn push_payment_el(out: &mut String, p: &Payment)
    ensures
        final(out)@ == old(out)@ + payment_el(*p),
{
    out.append("  <Payment type=\"");
    let t = normalize_method(p.method.as_str());
    out.append(t);
    out.append("\" amount=\"");
    push_money2_str(out, p.amount);
    out.append("\" />\n");
    proof {
        assert(out@ =~= old(out)@ + payment_el(*p));
    }
}

/// Builds the fiscal XML document for a header, the items, the payments and
/// an optional operator code.
pub fn build_hydra_xml(
    header: &str,
    items: &[SaleItem],
    payments: &[Payment],
    op: Option<&str>,
) -> (xml: String)
    ensures
        xml@ == xml_doc(header@, items@, payments@, opt_str_view(op)),
{
    let mut out = String::new();
    out.append("<?xml version=\"1.0\" encoding=\"UTF-8\"?>\n<FiscalReceipt>\n");
    out.append("  <Header>");
    push_escaped(&mut out, header);
    out.append("</Header>\n");
    match op {
        Some(o) => {
            if !o.is_empty() {
                out.append("  <Operator>");
                push_escaped(&mut out, o);
                out.append("</Operator>\n");
            }
        },
        None => {},
    }
    let ghost before_items = out@;
    let n = items.len();
    let mut i: usize = 0;
    while i < n
        invariant
            n == items@.len(),
            i <= n,
            out@ == before_items + items_xml_prefix(items@, i as int),
        decreases n - i,
    {
        let it = slice_index_get(items, i);
        push_item_el(&mut out, it);
        proof {
            assert(out@ =~= before_items + items_xml_prefix(items@, i + 1 as int));
        }
        i += 1;
    }
    out.append("  <Total/>\n");
    let ghost before_payments = out@;
    let np = payments.len();
    let mut j: usize = 0;
    while j < np
        invariant
            np == payments@.len(),
            j <= np,
            out@ == before_payments + payments_xml_prefix(payments@, j as int),
        decreases np - j,
    {
        let p = slice_index_get(payments, j);
        push_payment_el(&mut out, p);
        proof {
            assert(out@ =~= before_payments + payments_xml_prefix(payments@, j + 1 as int));
        }
        j += 1;
    }
    out.append("  <CloseFiscalReceipt/>\n</FiscalReceipt>\n");
    proof {
        assert(out@ =~= xml_doc(header@, items@, payments@, opt_str_view(op)));
    }
    out
}

// ---------------------------------------------------------------------------
// Target validation and URL
// ---------------------------------------------------------------------------
/// The index of the first `:` at or after `from`, or the length if none.
pub open spec fn find_colon_from(s: Seq<char>, from: nat) -> nat
    decreases s.len() - from,
{
    if from >= s.len() {
        s.len()
    } else if s[from as int] == ':' {
        from
    } else {
        find_colon_from(s, from + 1)
    }
}

/// Whether the address has a `host:port` shape at all.
pub open spec fn has_port(s: Seq<char>) -> bool {
    find_colon_from(s, 0) < s.len()
}

/// The part before the first `:`.
pub open spec fn host_of(s: Seq<char>) -> Seq<char> {
    s.take(find_colon_from(s, 0) as int)
}

/// The part between the first `:` and the next `:` or the end.
pub open spec fn port_of(s: Seq<char>) -> Seq<char> {
    let i = find_colon_from(s, 0);
    s.subrange(i as int + 1, find_colon_from(s, (i + 1) as nat) as int)
}

/// The error of an address with no port part.
pub open spec fn missing_port_msg() -> Seq<char> {
    "fiscal target must be host:9102"@
}

/// The error of an address whose port is not the fiscal one.
pub open spec fn wrong_port_msg() -> Seq<char> {
    "fiscal printing requires port 9102"@
}

/// The error of a profile whose model is not the fiscal device.
pub open spec fn model_mismatch_msg() -> Seq<char> {
    "printer model must be 'hydra' for fiscal printing"@
}

/// Finds the first `:` at or after `from`; returns the length if none.
fn find_colon_exec(s: &str, from: usize) -> (j: usize)
    requires
        from <= s@.len(),
    ensures
        j as nat == find_colon_from(s@, from as nat),
        from <= j <= s@.len(),
        j < s@.len() ==> s@[j as int] == ':',
{
    let len = s.unicode_len();
    let mut i: usize = from;
    while i < len
        invariant
            from <= i <= len,
            len == s@.len(),
            find_colon_from(s@, from as nat) == find_colon_from(s@, i as nat),
        decreases len - i,
    {
        if s.get_char(i) == ':' {
            return i;
        }
        i += 1;
    }
    len
}

/// Validates a fiscal address: it must be `host:port` with port 9102 exactly,
/// and is returned re-joined as `host:9102`.
pub fn parse_host_port_9102(printer_port: &str) -> (r: Result<String, String>)
    ensures
        !has_port(printer_port@) ==> (r matches Err(e) && e@ == missing_port_msg()),
        has_port(printer_port@) && port_of(printer_port@) != "9102"@ ==> (r matches Err(e) && e@
            == wrong_port_msg()),
        has_port(printer_port@) && port_of(printer_port@) == "9102"@ ==> (r matches Ok(h) && h@
            == host_of(printer_port@) + ":9102"@),
{
    let len = printer_port.unicode_len();
    let i = find_colon_exec(printer_port, 0);
    if i == len {
        return Err("fiscal target must be host:9102".to_owned());
    }
    let j = find_colon_exec(printer_port, i + 1);
    let port = printer_port.substring_char(i + 1, j);
    if str_eq(port, "9102") {
        let host = printer_port.substring_char(0, i);
        let mut out = host.to_owned();
        out.append(":9102");
        Ok(out)
    } else {
        Err("fiscal printing requires port 9102".to_owned())
    }
}

// ---------------------------------------------------------------------------
// The request
// ---------------------------------------------------------------------------
/// A prepared fiscal request: the endpoint URL and the XML body to POST.
#[derive(Clone, Debug)]
pub struct FiscalRequest {
    pub url: String,
    pub body: String,
}

/// Whether the profile declares the fiscal device model.
pub open spec fn is_hydra(p: PrinterConfig) -> bool {
    p.model matches Some(s) && s@ == "hydra"@
}

/// The fiscal endpoint path: the profile's, or "/hydra-fiscal".
pub open spec fn fiscal_path_view(p: PrinterConfig) -> Seq<char> {
    match p.hydra_path {
        Some(s) => s@,
        None => "/hydra-fiscal"@,
    }
}

/// The request header text: the supplied one, or the fixed generic label.
pub open spec fn header_view(h: Option<String>) -> Seq<char> {
    match h {
        Some(s) => s@,
        None => "Vendita"@,
    }
}

/// The profile's operator code, viewed.
pub open spec fn op_view(p: PrinterConfig) -> Option<Seq<char>> {
    match p.hydra_op {
        Some(o) => Some(o@),
        None => None,
    }
}

/// The endpoint URL of a valid profile.
pub open spec fn fiscal_url(p: PrinterConfig) -> Seq<char> {
    "http://"@ + host_of(p.printer_port@) + ":9102"@ + fiscal_path_view(p)
}

/// Validates the profile and builds the fiscal request: the model must be
/// the fiscal device and the target must name port 9102; the URL and the XML
/// body are then pinned exactly. No network activity happens here.
pub fn prepare_fiscal_receipt(
    printer: &PrinterConfig,
    items: &[SaleItem],
    payments: &[Payment],
    header: Option<String>,
) -> (r: Result<FiscalRequest, String>)
    ensures
        !is_hydra(*printer) ==> (r matches Err(e) && e@ == model_mismatch_msg()),
        is_hydra(*printer) && !has_port(printer.printer_port@) ==> (r matches Err(e) && e@
            == missing_port_msg()),
        is_hydra(*printer) && has_port(printer.printer_port@) && port_of(printer.printer_port@)
            != "9102"@ ==> (r matches Err(e) && e@ == wrong_port_msg()),
        is_hydra(*printer) && has_port(printer.printer_port@) && port_of(printer.printer_port@)
            == "9102"@ ==> (r matches Ok(req) && req.url@ == fiscal_url(*printer) && req.body@
            == xml_doc(header_view(header), items@, payments@, op_view(*printer))),
{
    let hydra = match &printer.model {
        Some(s) => str_eq(s.as_str(), "hydra"),
        None => false,
    };
    if !hydra {
        return Err("printer model must be 'hydra' for fiscal printing".to_owned());
    }
    let hostport = match parse_host_port_9102(printer.printer_port.as_str()) {
        Ok(h) => h,
        Err(e) => {
            return Err(e);
        },
    };
    let mut url = "http://".to_owned();
    url.append(hostport.as_str());
    match &printer.hydra_path {
        Some(p) => url.append(p.as_str()),
        None => url.append("/hydra-fiscal"),
    }
    let hdr = match header {
        Some(h) => h,
        None => "Vendita".to_owned(),
    };
    let op: Option<&str> = match &printer.hydra_op {
        Some(o) => Some(o.as_str()),
        None => None,
    };
    let body = build_hydra_xml(hdr.as_str(), items, payments, op);
    proof {
        assert(url@ =~= fiscal_url(*printer));
    }
    Ok(FiscalRequest { url, body })
}

// ---------------------------------------------------------------------------
// The response
// ---------------------------------------------------------------------------
/// Interprets the fiscal device's HTTP response: any status in [200,300) is
/// success; any other carries the status and the body verbatim.
pub fn interpret_fiscal_response(status: u16, body: &str) -> (r: Result<(), String>)
    ensures
        (200 <= status < 300) <==> r is Ok,
        !(200 <= status < 300) ==> (r matches Err(e) && e@ == "Hydra HTTP "@ + dec_chars(
            status as nat,
        ) + ": "@ + body@),
{
    if 200 <= status && status < 300 {
        Ok(())
    } else {
        let mut msg = "Hydra HTTP ".to_owned();
        push_dec_str(&mut msg, status as u64);
        msg.append(": ");
        msg.append(body);
        proof {
            assert(msg@ =~= "Hydra HTTP "@ + dec_chars(status as nat) + ": "@ + body@);
        }
        Err(msg)
    }
}

} // verus!

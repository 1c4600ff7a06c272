//! The three endpoints, as functions of plain values: the landing page, the
//! document itself, and the start of a notification session.

use vstd::prelude::*;
use crate::config::ServerConfig;
use crate::session::Session;
use crate::session::SessionState;
use crate::session::Severity;
use crate::signal::ChangeSignal;
use crate::text::{
    decimal, decimal_text, decimal_text_is_digits, lacks, occurs_in, replace_all,
    replace_all_at_first_token, replace_all_without_occurrence, replace_all_without_token,
    starts_with, substitute, token_needs_its_first_character,
};

verus! {

/// Stands in the page template where the server's address goes.
pub const ADDRESS_TOKEN: &'static str = "{addr}";

/// Stands in the page template where the server's port goes.
pub const PORT_TOKEN: &'static str = "{port}";

/// The landing page before its two tokens are filled in. It shows the
/// document and reloads whenever a refresh frame arrives.
pub const PAGE_TEMPLATE: &'static str =
    "<!DOCTYPE html>\n<html>\n<head>\n<meta charset=\"utf-8\">\n<title>Live preview</title>\n</head>\n<body style=\"margin: 0\">\n<embed src=\"/target\" type=\"application/pdf\" style=\"width: 100vw; height: 100vh\">\n<script>\nnew WebSocket(\"ws://{addr}:{port}/listen\").onmessage = (event) => event.data === \"refresh\" && location.reload();\n</script>\n</body>\n</html>\n";

/// The file that the compiler writes when recompilation is on.
pub const COMPILED_FILENAME: &'static str = "output.pdf";

/// The content type of the document.
pub const DOCUMENT_TYPE: &'static str = "application/pdf";

/// The landing page for a server at `address` and `port`: the template with
/// the address token filled in first and the port token second.
pub open spec fn landing_page(address: Seq<char>, port: u16) -> Seq<char> {
    replace_all(
        replace_all(PAGE_TEMPLATE@, ADDRESS_TOKEN@, address),
        PORT_TOKEN@,
        decimal_text(port as nat),
    )
}

/// The name of the file that is served as the document.
pub open spec fn served_filename(config: ServerConfig) -> Seq<char> {
    if config.no_recompile {
        config.filename@
    } else {
        COMPILED_FILENAME@
    }
}

/// The body served for the document, given what reading the file gave: the
/// file's bytes, or nothing where it could not be read.
pub open spec fn served_body<E>(read: Result<Vec<u8>, E>) -> Seq<u8> {
    match read {
        Ok(data) => data@,
        Err(_) => Seq::empty(),
    }
}

/// The log record owed for what reading the file gave: an error record
/// exactly when the read failed. A file that was read, an empty one too, calls
/// for none.
pub open spec fn read_severity<E>(read: Result<Vec<u8>, E>) -> Option<Severity> {
    match read {
        Ok(_) => None,
        Err(_) => Some(Severity::Error),
    }
}

/// The response to a request for the document.
#[derive(Clone, Debug)]
pub struct DocumentResponse {
    pub status: u16,
    pub content_type: &'static str,
    pub body: Vec<u8>,
}

/// Renders the landing page. Cannot fail.
pub fn root(config: &ServerConfig) -> (page: String)
    ensures
        page@ == landing_page(config.address@, config.port),
{
    let with_address = substitute(PAGE_TEMPLATE, ADDRESS_TOKEN, config.address.as_str());
    let port = decimal(config.port as u64);
    substitute(with_address.as_str(), PORT_TOKEN, port.as_str())
}

/// Picks the file to read for the document.
pub fn target_filename(config: &ServerConfig) -> (name: &str)
    ensures
        name@ == served_filename(*config),
{
    if config.no_recompile {
        config.filename.as_str()
    } else {
        COMPILED_FILENAME
    }
}

/// Says at which level the outcome of reading the document's file is to be
/// logged, if at all.
pub fn target_severity<E>(read: &Result<Vec<u8>, E>) -> (log: Option<Severity>)
    ensures
        log == read_severity(*read),
{
    match read {
        Ok(_) => None,
        Err(_) => Some(Severity::Error),
    }
}

/// Builds the response for the document from the outcome of reading its file.
/// A file that could not be read is no error to the client: the response is
/// still a success, with an empty body.
pub fn target<E>(read: Result<Vec<u8>, E>) -> (response: DocumentResponse)
    ensures
        response.status == 200,
        response.content_type@ == DOCUMENT_TYPE@,
        response.body@ == served_body(read),
{
    let body = match read {
        Ok(data) => data,
        Err(_) => Vec::new(),
    };
    DocumentResponse { status: 200, content_type: DOCUMENT_TYPE, body }
}

/// Opens a notification session for a client that has just connected. The
/// session waits for the next notification on `signal`; what was notified
/// before it connected does not wake it.
pub fn listen(signal: &ChangeSignal) -> (session: Session)
    ensures
        session == Session::listening(*signal),
{
    Session { state: SessionState::Waiting, seen: signal.generation }
}

/// The template's text before the address token.
pub open spec fn page_head() -> Seq<char> {
    PAGE_TEMPLATE@.subrange(0, 224)
}

/// The template's text after the port token.
pub open spec fn page_tail() -> Seq<char> {
    PAGE_TEMPLATE@.skip(237)
}

/// The template is its head, the address token, a colon, the port token and
/// its tail, and neither head nor tail holds an opening brace. The characters
/// of a literal are known only where the literal itself is revealed, so the
/// template's text is written out once more in the body.
proof fn template_shape()
    ensures
        PAGE_TEMPLATE@ == page_head() + ADDRESS_TOKEN@ + seq![':'] + PORT_TOKEN@ + page_tail(),
        lacks(page_head(), '{'),
        lacks(page_tail(), '{'),
        ADDRESS_TOKEN@ == seq!['{', 'a', 'd', 'd', 'r', '}'],
        PORT_TOKEN@ == seq!['{', 'p', 'o', 'r', 't', '}'],
{
    reveal_strlit("<!DOCTYPE html>\n<html>\n<head>\n<meta charset=\"utf-8\">\n<title>Live preview</title>\n</head>\n<body style=\"margin: 0\">\n<embed src=\"/target\" type=\"application/pdf\" style=\"width: 100vw; height: 100vh\">\n<script>\nnew WebSocket(\"ws://{addr}:{port}/listen\").onmessage = (event) => event.data === \"refresh\" && location.reload();\n</script>\n</body>\n</html>\n");
    reveal_strlit("{addr}");
    reveal_strlit("{port}");
    assert(PAGE_TEMPLATE@ =~= page_head() + ADDRESS_TOKEN@ + seq![':'] + PORT_TOKEN@ + page_tail());
    assert(ADDRESS_TOKEN@ =~= seq!['{', 'a', 'd', 'd', 'r', '}']);
    assert(PORT_TOKEN@ =~= seq!['{', 'p', 'o', 'r', 't', '}']);
}

/// For an address that holds no opening brace, the landing page is the
/// template's head, the address, a colon, the port in decimal and the
/// template's tail. The page then names the address and the port, holds no
/// opening brace, and so has neither token left in it.
pub proof fn landing_page_is_resolved(address: Seq<char>, port: u16)
    requires
        lacks(address, '{'),
    ensures
        landing_page(address, port) == page_head() + address + seq![':'] + decimal_text(
            port as nat,
        ) + page_tail(),
        occurs_in(address, landing_page(address, port)),
        occurs_in(decimal_text(port as nat), landing_page(address, port)),
        lacks(landing_page(address, port), '{'),
        !occurs_in(ADDRESS_TOKEN@, landing_page(address, port)),
        !occurs_in(PORT_TOKEN@, landing_page(address, port)),
{
    template_shape();
    let head = page_head();
    let tail = page_tail();
    let colon = seq![':'];
    let digits = decimal_text(port as nat);
    decimal_text_is_digits(port as nat);

    // The address token is replaced where it stands; no other is found.
    let rest = colon + PORT_TOKEN@ + tail;
    assert(PAGE_TEMPLATE@ =~= head + ADDRESS_TOKEN@ + rest);
    replace_all_at_first_token(head, rest, ADDRESS_TOKEN@, address);
    assert forall|at: int| 0 <= at <= rest.len() implies !#[trigger] starts_with(
        rest.skip(at),
        ADDRESS_TOKEN@,
    ) by {
        if ADDRESS_TOKEN@.len() <= rest.skip(at).len() {
            let found = rest.skip(at).subrange(0, ADDRESS_TOKEN@.len() as int);
            assert(found[0] == rest[at]);
            assert(found[1] == rest[at + 1]);
            if at != 1 {
                assert(rest[at] != '{');
            }
        }
    }
    replace_all_without_occurrence(rest, ADDRESS_TOKEN@, address);
    let filled = head + address + rest;
    assert(replace_all(PAGE_TEMPLATE@, ADDRESS_TOKEN@, address) == filled);

    // Then the port token, which follows text without an opening brace.
    let before = head + address + colon;
    assert(filled =~= before + PORT_TOKEN@ + tail);
    assert(lacks(before, '{'));
    replace_all_at_first_token(before, tail, PORT_TOKEN@, digits);
    replace_all_without_token(tail, PORT_TOKEN@, digits);
    let page = head + address + colon + digits + tail;
    assert(before + digits + tail =~= page);
    assert(landing_page(address, port) == page);

    assert(lacks(page, '{'));
    token_needs_its_first_character(page, ADDRESS_TOKEN@);
    token_needs_its_first_character(page, PORT_TOKEN@);
    assert(page.skip(head.len() as int).subrange(0, address.len() as int) =~= address);
    assert(starts_with(page.skip(head.len() as int), address));
    let port_at = head.len() + address.len() + 1;
    assert(page.skip(port_at as int).subrange(0, digits.len() as int) =~= digits);
    assert(starts_with(page.skip(port_at as int), digits));
}

} // verus!

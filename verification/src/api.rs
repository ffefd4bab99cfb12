//! The node's HTTP API, without the network: which request asks for what,
//! and how a response is framed.
//!
//! Requests are parsed by hand. Only the first line of a request matters:
//! its first word is the method and its second the path.

use vstd::prelude::*;
use vstd::string::*;

use crate::encoding::{decimal_chars, decimal_text, hex_bytes, hex_decode, is_hex_text};
use crate::types::address::Address;

verus! {

/// The only method that is served
pub const METHOD_GET: &'static str = "GET";

/// The path of a request that gives none
pub const PATH_ROOT: &'static str = "/";

/// The other path of the explorer page
pub const PATH_INDEX: &'static str = "/index.html";

/// The path of the node's status
pub const PATH_STATUS: &'static str = "/api/status";

/// The path of the most recent blocks
pub const PATH_RECENT_BLOCKS: &'static str = "/api/blocks/recent";

/// The path of the genesis block
pub const PATH_GENESIS: &'static str = "/api/genesis";

/// What the path of a balance begins with
pub const PREFIX_BALANCE: &'static str = "/api/balance/";

/// What the path of a block begins with
pub const PREFIX_BLOCK: &'static str = "/api/block/";

/// What the path of a job begins with
pub const PREFIX_JOB: &'static str = "/api/job/";

/// What an address may begin with
pub const PREFIX_HEX: &'static str = "0x";

/// How many blocks count as recent
pub const RECENT_BLOCKS: u64 = 10;

/// What a request asks for.
#[derive(Debug, PartialEq, Eq)]
pub enum ApiRoute {
    /// Nothing that the API serves
    NotFound,
    /// The explorer page
    Explorer,
    /// The node's status
    Status,
    /// The most recent blocks
    RecentBlocks,
    /// The balance of an address
    Balance {
        /// The address as the request wrote it
        text: String,
        /// The address, where the text names one
        address: Option<Address>,
    },
    /// A block, by its hash or by its height
    Block {
        /// The hash, where the request names one
        hash: Option<crate::crypto::hash::Hash>,
        /// The height, where the request names one
        height: Option<u64>,
    },
    /// A job, by its hash
    Job {
        /// The hash, where the request names one
        hash: Option<crate::crypto::hash::Hash>,
    },
    /// The genesis block
    Genesis,
}

/// What a route holds, as plain values.
pub enum RouteView {
    /// Nothing that the API serves
    NotFound,
    /// The explorer page
    Explorer,
    /// The node's status
    Status,
    /// The most recent blocks
    RecentBlocks,
    /// The balance of an address
    Balance {
        /// The address as the request wrote it
        text: Seq<char>,
        /// The bytes of the address, where the text names one
        address: Option<Seq<u8>>,
    },
    /// A block, by its hash or by its height
    Block {
        /// The bytes of the hash, where the request names one
        hash: Option<Seq<u8>>,
        /// The height, where the request names one
        height: Option<u64>,
    },
    /// A job, by its hash
    Job {
        /// The bytes of the hash, where the request names one
        hash: Option<Seq<u8>>,
    },
    /// The genesis block
    Genesis,
}

/// The bytes of a hash that may be there.
pub open spec fn hash_view(hash: Option<crate::crypto::hash::Hash>) -> Option<Seq<u8>> {
    match hash {
        Some(h) => Some(h.0@),
        None => None,
    }
}

impl View for ApiRoute {
    type V = RouteView;

    open spec fn view(&self) -> RouteView {
        match self {
            ApiRoute::NotFound => RouteView::NotFound,
            ApiRoute::Explorer => RouteView::Explorer,
            ApiRoute::Status => RouteView::Status,
            ApiRoute::RecentBlocks => RouteView::RecentBlocks,
            ApiRoute::Balance { text, address } => RouteView::Balance {
                text: text@,
                address: match address {
                    Some(a) => Some(a.0@),
                    None => None,
                },
            },
            ApiRoute::Block { hash, height } => RouteView::Block {
                hash: hash_view(*hash),
                height: *height,
            },
            ApiRoute::Job { hash } => RouteView::Job { hash: hash_view(*hash) },
            ApiRoute::Genesis => RouteView::Genesis,
        }
    }
}

/// Whether a character is white space.
pub open spec fn is_space(c: char) -> bool {
    let n = c as u32;
    ||| 0x09 <= n <= 0x0d
    ||| n == 0x20
    ||| n == 0x85
    ||| n == 0xa0
    ||| n == 0x1680
    ||| 0x2000 <= n <= 0x200a
    ||| n == 0x2028
    ||| n == 0x2029
    ||| n == 0x202f
    ||| n == 0x205f
    ||| n == 0x3000
}

/// Where the first line of a text ends: at its first line feed, or at the
/// end of the text.
pub open spec fn line_end(text: Seq<char>, from: int) -> int
    decreases text.len() - from,
{
    if from < 0 || from >= text.len() {
        text.len() as int
    } else if text[from] == '\n' {
        from
    } else {
        line_end(text, from + 1)
    }
}

/// The first place from `from` on, before `limit`, that holds no white
/// space; `limit` where there is none.
pub open spec fn spaces_end(text: Seq<char>, from: int, limit: int) -> int
    decreases limit - from,
{
    if from < 0 || from >= limit || limit > text.len() {
        limit
    } else if !is_space(text[from]) {
        from
    } else {
        spaces_end(text, from + 1, limit)
    }
}

/// The first place from `from` on, before `limit`, that holds white space;
/// `limit` where there is none.
pub open spec fn word_end(text: Seq<char>, from: int, limit: int) -> int
    decreases limit - from,
{
    if from < 0 || from >= limit || limit > text.len() {
        limit
    } else if is_space(text[from]) {
        from
    } else {
        word_end(text, from + 1, limit)
    }
}

/// The method and the path of a request: the first two words of its first
/// line. A request without a method asks with `GET`, one without a path
/// asks for `/`.
pub open spec fn request_words(text: Seq<char>) -> (Seq<char>, Seq<char>) {
    let limit = line_end(text, 0);
    let a = spaces_end(text, 0, limit);
    let b = word_end(text, a, limit);
    let c = spaces_end(text, b, limit);
    let d = word_end(text, c, limit);
    (
        if a >= limit {
            METHOD_GET@
        } else {
            text.subrange(a, b)
        },
        if c >= limit {
            PATH_ROOT@
        } else {
            text.subrange(c, d)
        },
    )
}

/// Whether a text begins with another.
pub open spec fn begins(text: Seq<char>, prefix: Seq<char>) -> bool {
    prefix.len() <= text.len() && text.subrange(0, prefix.len() as int) == prefix
}

/// How many characters of a text are taken up by repetitions of a prefix at
/// its front.
pub open spec fn leading_repeats(text: Seq<char>, prefix: Seq<char>) -> int
    decreases text.len(),
{
    if prefix.len() > 0 && begins(text, prefix) {
        prefix.len() + leading_repeats(text.subrange(prefix.len() as int, text.len() as int), prefix)
    } else {
        0
    }
}

/// A text without the repetitions of a prefix at its front.
pub open spec fn without_leading(text: Seq<char>, prefix: Seq<char>) -> Seq<char> {
    text.subrange(leading_repeats(text, prefix), text.len() as int)
}

/// The number that the first `count` characters of a text stand for, read as
/// decimal digits.
pub open spec fn digits_value(text: Seq<char>, count: int) -> int
    decreases count,
{
    if count <= 0 {
        0
    } else {
        digits_value(text, count - 1) * 10 + (text[count - 1] as u32 - 0x30)
    }
}

/// Whether a character is a decimal digit.
pub open spec fn is_decimal(c: char) -> bool {
    0x30 <= c as u32 <= 0x39
}

/// Whether a text holds decimal digits only.
pub open spec fn all_decimal(digits: Seq<char>) -> bool {
    forall|i: int| 0 <= i < digits.len() ==> is_decimal(#[trigger] digits[i])
}

/// The 64-bit number that some decimal digits stand for: there must be at
/// least one, nothing else, and the number must fit.
pub open spec fn digits_number(digits: Seq<char>) -> Option<u64> {
    if digits.len() == 0 || !all_decimal(digits) || digits_value(digits, digits.len() as int)
        > u64::MAX {
        None
    } else {
        Some(digits_value(digits, digits.len() as int) as u64)
    }
}

/// The 64-bit number that a text stands for: decimal digits, at least one,
/// after an optional plus sign, as far as the number fits.
pub open spec fn number_of(text: Seq<char>) -> Option<u64> {
    if text.len() > 0 && text[0] == '+' {
        digits_number(text.subrange(1, text.len() as int))
    } else {
        digits_number(text)
    }
}

/// The address that a text names, as its bytes: forty hexadecimal digits.
pub open spec fn address_of_digits(text: Seq<char>) -> Option<Seq<u8>> {
    if is_hex_text(text) && hex_bytes(text).len() == 20 {
        Some(hex_bytes(text))
    } else {
        None
    }
}

/// What a request with a method and a path asks for.
///
/// Only `GET` is served. A balance is asked for with the address behind the
/// prefix, which may begin with `0x`; a block with its hash or its height; a
/// job with its hash.
pub open spec fn route_for(method: Seq<char>, path: Seq<char>) -> RouteView {
    if method != METHOD_GET@ {
        RouteView::NotFound
    } else if path == PATH_ROOT@ || path == PATH_INDEX@ {
        RouteView::Explorer
    } else if path == PATH_STATUS@ {
        RouteView::Status
    } else if path == PATH_RECENT_BLOCKS@ {
        RouteView::RecentBlocks
    } else if begins(path, PREFIX_BALANCE@) {
        let text = without_leading(path, PREFIX_BALANCE@);
        RouteView::Balance { text, address: address_of_digits(without_leading(text, PREFIX_HEX@)) }
    } else if begins(path, PREFIX_BLOCK@) {
        let query = without_leading(path, PREFIX_BLOCK@);
        RouteView::Block { hash: crate::crypto::hash::Hash::spec_from_hex(query), height: number_of(query) }
    } else if begins(path, PREFIX_JOB@) {
        RouteView::Job { hash: crate::crypto::hash::Hash::spec_from_hex(without_leading(path, PREFIX_JOB@)) }
    } else if path == PATH_GENESIS@ {
        RouteView::Genesis
    } else {
        RouteView::NotFound
    }
}

/// Whether a character is white space.
pub fn is_whitespace(c: char) -> (r: bool)
    ensures
        r == is_space(c),
{
    let n = c as u32;
    (0x09 <= n && n <= 0x0d) || n == 0x20 || n == 0x85 || n == 0xa0 || n == 0x1680 || (0x2000 <= n
        && n <= 0x200a) || n == 0x2028 || n == 0x2029 || n == 0x202f || n == 0x205f || n == 0x3000
}

fn find_line_end(text: &str, length: usize) -> (r: usize)
    requires
        length == text@.len(),
    ensures
        r == line_end(text@, 0),
        r <= length,
{
    let mut i: usize = 0;
    while i < length
        invariant
            0 <= i <= length,
            length == text@.len(),
            line_end(text@, 0) == line_end(text@, i as int),
        decreases length - i,
    {
        if text.get_char(i) == '\n' {
            return i;
        }
        i += 1;
    }
    i
}

fn skip_spaces(text: &str, from: usize, limit: usize) -> (r: usize)
    requires
        from <= limit <= text@.len(),
    ensures
        r == spaces_end(text@, from as int, limit as int),
        from <= r <= limit,
{
    let mut i: usize = from;
    while i < limit
        invariant
            from <= i <= limit <= text@.len(),
            spaces_end(text@, from as int, limit as int) == spaces_end(text@, i as int, limit as int),
        decreases limit - i,
    {
        if !is_whitespace(text.get_char(i)) {
            return i;
        }
        i += 1;
    }
    i
}

fn skip_word(text: &str, from: usize, limit: usize) -> (r: usize)
    requires
        from <= limit <= text@.len(),
    ensures
        r == word_end(text@, from as int, limit as int),
        from <= r <= limit,
{
    let mut i: usize = from;
    while i < limit
        invariant
            from <= i <= limit <= text@.len(),
            word_end(text@, from as int, limit as int) == word_end(text@, i as int, limit as int),
        decreases limit - i,
    {
        if is_whitespace(text.get_char(i)) {
            return i;
        }
        i += 1;
    }
    i
}

/// Whether two texts are the same.
pub fn same_text(a: &str, b: &str) -> (r: bool)
    ensures
        r == (a@ == b@),
{
    let n = a.unicode_len();
    if n != b.unicode_len() {
        return false;
    }
    let mut i: usize = 0;
    while i < n
        invariant
            0 <= i <= n,
            n == a@.len(),
            n == b@.len(),
            forall|j: int| 0 <= j < i ==> a@[j] == b@[j],
        decreases n - i,
    {
        if a.get_char(i) != b.get_char(i) {
            return false;
        }
        i += 1;
    }
    assert(a@ =~= b@);
    true
}

fn begins_at(text: &str, length: usize, from: usize, prefix: &str, prefix_length: usize) -> (r:
    bool)
    requires
        length == text@.len(),
        prefix_length == prefix@.len(),
        from <= length,
    ensures
        r == begins(text@.subrange(from as int, length as int), prefix@),
{
    if prefix_length > length - from {
        return false;
    }
    let ghost rest = text@.subrange(from as int, length as int);
    let mut i: usize = 0;
    while i < prefix_length
        invariant
            0 <= i <= prefix_length,
            prefix_length == prefix@.len(),
            length == text@.len(),
            from + prefix_length <= length,
            rest == text@.subrange(from as int, length as int),
            forall|j: int| 0 <= j < i ==> rest[j] == prefix@[j],
        decreases prefix_length - i,
    {
        if text.get_char(from + i) != prefix.get_char(i) {
            assert(rest.subrange(0, prefix@.len() as int)[i as int] != prefix@[i as int]);
            return false;
        }
        i += 1;
    }
    assert(rest.subrange(0, prefix@.len() as int) =~= prefix@);
    true
}

/// What is left of a text once the repetitions of a prefix at its front are
/// taken off.
pub fn trim_leading<'a>(text: &'a str, prefix: &str) -> (r: &'a str)
    ensures
        r@ == without_leading(text@, prefix@),
{
    let length = text.unicode_len();
    let prefix_length = prefix.unicode_len();
    let mut from: usize = 0;
    if prefix_length > 0 {
        assert(text@.subrange(0, length as int) =~= text@);
        while begins_at(text, length, from, prefix, prefix_length)
            invariant
                0 <= from <= length,
                length == text@.len(),
                prefix_length == prefix@.len(),
                prefix_length > 0,
                leading_repeats(text@, prefix@) == from + leading_repeats(
                    text@.subrange(from as int, length as int),
                    prefix@,
                ),
            decreases length - from,
        {
            let ghost rest = text@.subrange(from as int, length as int);
            assert(rest.subrange(prefix@.len() as int, rest.len() as int) =~= text@.subrange(
                from + prefix_length,
                length as int,
            ));
            from += prefix_length;
        }
    }
    text.substring_char(from, length)
}

/// The 64-bit number that a text stands for, if it stands for one.
#[verifier::loop_isolation(false)]
pub fn parse_number(text: &str) -> (r: Option<u64>)
    ensures
        r == number_of(text@),
{
    let length = text.unicode_len();
    let start: usize = if length > 0 && text.get_char(0) == '+' {
        1
    } else {
        0
    };
    let ghost digits = text@.subrange(start as int, length as int);
    assert(start == 0 ==> digits =~= text@);
    if start == length {
        return None;
    }
    let mut value: u64 = 0;
    let mut i: usize = start;
    let mut overflowed = false;
    while i < length
        invariant
            start <= i <= length,
            length == text@.len(),
            digits == text@.subrange(start as int, length as int),
            forall|j: int| 0 <= j < i - start ==> is_decimal(#[trigger] digits[j]),
            !overflowed ==> value == digits_value(digits, i - start),
            overflowed ==> digits_value(digits, i - start) > u64::MAX,
        decreases length - i,
    {
        let c = text.get_char(i);
        let n = c as u32;
        if n < 0x30 || n > 0x39 {
            assert(!is_decimal(digits[i - start]));
            return None;
        }
        let digit: u64 = (n - 0x30) as u64;
        if !overflowed {
            match value.checked_mul(10) {
                Some(v) => match v.checked_add(digit) {
                    Some(w) => {
                        value = w;
                    },
                    None => {
                        overflowed = true;
                    },
                },
                None => {
                    overflowed = true;
                },
            }
        } else {
            assert(digits_value(digits, i - start + 1) > u64::MAX) by (nonlinear_arith)
                requires
                    digits_value(digits, i - start + 1) == digits_value(digits, i - start) * 10
                        + digit,
                    digits_value(digits, i - start) > u64::MAX,
                    digit >= 0,
            ;
        }
        i += 1;
    }
    if overflowed {
        None
    } else {
        Some(value)
    }
}

/// The address that a text of forty hexadecimal digits names.
pub fn address_from_digits(text: &str) -> (r: Option<Address>)
    ensures
        match address_of_digits(text@) {
            Some(bytes) => r is Some && r->Some_0.0@ == bytes,
            None => r is None,
        },
{
    match hex_decode(text) {
        Some(bytes) => {
            if bytes.len() == 20 {
                let address = Address::from_prefix(bytes.as_slice());
                assert(address.0@ =~= bytes@);
                Some(address)
            } else {
                None
            }
        },
        None => None,
    }
}

fn hash_from(text: &str) -> (r: Option<crate::crypto::hash::Hash>)
    ensures
        hash_view(r) == crate::crypto::hash::Hash::spec_from_hex(text@),
{
    match crate::crypto::hash::Hash::from_hex(text) {
        Ok(hash) => Some(hash),
        Err(_) => None,
    }
}

/// What a request asks for, by its method and its path.
pub fn route(method: &str, path: &str) -> (r: ApiRoute)
    ensures
        r@ == route_for(method@, path@),
{
    if !same_text(method, METHOD_GET) {
        return ApiRoute::NotFound;
    }
    if same_text(path, PATH_ROOT) || same_text(path, PATH_INDEX) {
        return ApiRoute::Explorer;
    }
    if same_text(path, PATH_STATUS) {
        return ApiRoute::Status;
    }
    if same_text(path, PATH_RECENT_BLOCKS) {
        return ApiRoute::RecentBlocks;
    }
    let length = path.unicode_len();
    assert(path@.subrange(0, length as int) =~= path@);
    if begins_at(path, length, 0, PREFIX_BALANCE, PREFIX_BALANCE.unicode_len()) {
        let text = trim_leading(path, PREFIX_BALANCE);
        let address = address_from_digits(trim_leading(text, PREFIX_HEX));
        return ApiRoute::Balance { text: String::from_str(text), address };
    }
    if begins_at(path, length, 0, PREFIX_BLOCK, PREFIX_BLOCK.unicode_len()) {
        let query = trim_leading(path, PREFIX_BLOCK);
        return ApiRoute::Block { hash: hash_from(query), height: parse_number(query) };
    }
    if begins_at(path, length, 0, PREFIX_JOB, PREFIX_JOB.unicode_len()) {
        return ApiRoute::Job { hash: hash_from(trim_leading(path, PREFIX_JOB)) };
    }
    if same_text(path, PATH_GENESIS) {
        return ApiRoute::Genesis;
    }
    ApiRoute::NotFound
}

/// What a request asks for: its first line names the method and the path.
pub fn route_of(request: &str) -> (r: ApiRoute)
    ensures
        r@ == route_for(request_words(request@).0, request_words(request@).1),
{
    let length = request.unicode_len();
    let limit = find_line_end(request, length);
    let a = skip_spaces(request, 0, limit);
    let b = skip_word(request, a, limit);
    let c = skip_spaces(request, b, limit);
    let d = skip_word(request, c, limit);
    let method = if a >= limit {
        METHOD_GET
    } else {
        request.substring_char(a, b)
    };
    let path = if c >= limit {
        PATH_ROOT
    } else {
        request.substring_char(c, d)
    };
    route(method, path)
}

/// The heights of the most recent blocks of a chain with `height` blocks,
/// the latest first: at most ten, down from the last block.
pub open spec fn recent(height: u64) -> Seq<u64> {
    if height == 0 {
        Seq::empty()
    } else if height <= RECENT_BLOCKS {
        Seq::new(height as nat, |i: int| (height - 1 - i) as u64)
    } else {
        Seq::new(RECENT_BLOCKS as nat, |i: int| (height - 1 - i) as u64)
    }
}

/// The heights of the most recent blocks of a chain with `height` blocks,
/// the latest first.
pub fn recent_heights(height: u64) -> (r: Vec<u64>)
    ensures
        r@ == recent(height),
{
    let mut out: Vec<u64> = Vec::new();
    if height == 0 {
        assert(out@ =~= recent(height));
        return out;
    }
    let count: u64 = if height <= RECENT_BLOCKS {
        height
    } else {
        RECENT_BLOCKS
    };
    let mut i: u64 = 0;
    while i < count
        invariant
            0 <= i <= count <= height,
            out@.len() == i,
            forall|j: int| 0 <= j < i ==> out@[j] == height - 1 - j,
        decreases count - i,
    {
        out.push(height - 1 - i);
        i += 1;
    }
    assert(out@ =~= recent(height));
    out
}

/// What stands before the length in a response that succeeds
pub const RESPONSE_OK: &'static str = "HTTP/1.1 200 OK\r\nContent-Length: ";

/// What stands between the length and the body of a page
pub const HTML_HEADERS: &'static str = "\r\nContent-Type: text/html\r\nConnection: close\r\n\r\n";

/// What stands between the length and the body of a JSON response
pub const JSON_HEADERS: &'static str =
    "\r\nContent-Type: application/json\r\nAccess-Control-Allow-Origin: *\r\nConnection: close\r\n\r\n";

/// The response to a request for nothing that the API serves
pub const NOT_FOUND: &'static str =
    "HTTP/1.1 404 Not Found\r\nContent-Length: 0\r\nConnection: close\r\n\r\n";

/// A response that succeeds: the status line, the length of the body in
/// bytes, the headers, and the body.
pub open spec fn framed(headers: Seq<char>, body: Seq<char>) -> Seq<char> {
    RESPONSE_OK@ + decimal_chars(vstd::utf8::encode_utf8(body).len()) + headers + body
}

fn frame(headers: &str, body: &str) -> (r: String)
    ensures
        r@ == framed(headers@, body@),
{
    let length = body.as_bytes().len();
    String::from_str(RESPONSE_OK).concat(decimal_text(length as u64).as_str()).concat(
        headers,
    ).concat(body)
}

/// The response that carries a page.
pub fn html_response(body: &str) -> (r: String)
    ensures
        r@ == framed(HTML_HEADERS@, body@),
{
    frame(HTML_HEADERS, body)
}

/// The response that carries a JSON text.
pub fn json_response(body: &str) -> (r: String)
    ensures
        r@ == framed(JSON_HEADERS@, body@),
{
    frame(JSON_HEADERS, body)
}

/// The response to a request for nothing that the API serves.
pub fn not_found() -> (r: String)
    ensures
        r@ == NOT_FOUND@,
{
    String::from_str(NOT_FOUND)
}

} // verus!

//! The three representations of a page, and how a request chooses one.
//!
//! A request chooses by the parameter `realm_mode` of its query: `api` asks
//! for the page's bare JSON, `layout` for its `{id, config}` descriptor.
//! Anything else, and no such parameter, is a browser that wants the HTML
//! document.

use crate::message::Request;
use crate::text::{chars_of, same_text};
use vstd::prelude::*;

verus! {

/// The representation in which a page is served.
#[derive(Clone, Copy, Debug, PartialEq, Eq, Structural)]
pub enum Mode {
    /// The page's own JSON, bare.
    API,
    /// The full HTML document.
    HTML,
    /// The `{id, config}` descriptor, as JSON.
    Layout,
}

/// Where `c` first stands in `s`; the length of `s` if it stands nowhere.
pub open spec fn first(s: Seq<char>, c: char) -> int
    decreases s.len(),
{
    if s.len() == 0 {
        0
    } else if s[0] == c {
        0
    } else {
        1 + first(s.drop_first(), c)
    }
}

/// The value of the first parameter named `key` in `query`.
///
/// A query is a run of parameters with `&` between them. A parameter is a
/// name, and behind its first `=`, if it has one, a value; without one the
/// value is empty. Names and values are taken as they are written.
pub open spec fn parameter(query: Seq<char>, key: Seq<char>) -> Option<Seq<char>>
    decreases query.len(),
{
    let end = first(query, '&');
    let pair = query.take(end);
    let eq = first(pair, '=');
    if pair.take(eq) == key {
        Some(if eq < pair.len() { pair.skip(eq + 1) } else { Seq::empty() })
    } else if 0 <= end < query.len() {
        parameter(query.skip(end + 1), key)
    } else {
        None
    }
}

/// The mode that a signal asks for.
pub open spec fn mode_of(signal: Option<Seq<char>>) -> Mode {
    if signal == Some("api"@) {
        Mode::API
    } else if signal == Some("layout"@) {
        Mode::Layout
    } else {
        Mode::HTML
    }
}

/// What a query says of the mode: the value of its parameter `realm_mode`.
pub open spec fn signal_of(query: Option<Seq<char>>) -> Option<Seq<char>> {
    match query {
        Some(query) => parameter(query, "realm_mode"@),
        None => None,
    }
}

/// The place before which `c` stands nowhere, and at which it stands or `s`
/// ends, is `first`.
pub proof fn first_is(s: Seq<char>, c: char, at: int)
    requires
        0 <= at <= s.len(),
        forall|j: int| 0 <= j < at ==> s[j] != c,
        at < s.len() ==> s[at] == c,
    ensures
        first(s, c) == at,
    decreases at,
{
    if at > 0 {
        let rest = s.drop_first();
        assert forall|j: int| 0 <= j < at - 1 implies rest[j] != c by {
            assert(rest[j] == s[j + 1]);
        }
        if at < s.len() {
            assert(rest[at - 1] == s[at]);
        }
        first_is(rest, c, at - 1);
    }
}

/// Where `c` first stands in `text` at or behind `from`, but not behind
/// `to`: `to` if it stands nowhere between them.
fn find(text: &Vec<char>, from: usize, to: usize, c: char) -> (at: usize)
    requires
        from <= to <= text@.len(),
    ensures
        from <= at <= to,
        at - from == first(text@.subrange(from as int, to as int), c),
{
    let mut at = from;
    while at < to && text[at] != c
        invariant
            from <= at <= to <= text@.len(),
            forall|j: int| from <= j < at ==> text@[j] != c,
        decreases to - at,
    {
        at = at + 1;
    }
    proof {
        let part = text@.subrange(from as int, to as int);
        assert forall|j: int| 0 <= j < at - from implies part[j] != c by {
            assert(part[j] == text@[from + j]);
        }
        first_is(part, c, at - from);
    }
    at
}

/// Whether `text` between `from` and `to` reads as `key` does.
fn reads(text: &Vec<char>, from: usize, to: usize, key: &Vec<char>) -> (r: bool)
    requires
        from <= to <= text@.len(),
    ensures
        r == (text@.subrange(from as int, to as int) == key@),
{
    if to - from != key.len() {
        return false;
    }
    let n = key.len();
    let mut at: usize = 0;
    while at < n
        invariant
            n == key@.len(),
            n == to - from,
            from <= to <= text@.len(),
            at <= n,
            forall|j: int| 0 <= j < at ==> text@[from + j] == key@[j],
        decreases n - at,
    {
        if text[from + at] != key[at] {
            assert(text@.subrange(from as int, to as int)[at as int] == text@[from + at]);
            return false;
        }
        at = at + 1;
    }
    assert(text@.subrange(from as int, to as int) =~= key@);
    true
}

/// The value of the first parameter named `key` in `query`.
pub fn query_parameter(query: &str, key: &str) -> (value: Option<String>)
    ensures
        match value {
            Some(v) => parameter(query@, key@) == Some(v@),
            None => parameter(query@, key@) is None,
        },
{
    let text = chars_of(query);
    let name = chars_of(key);
    let n = text.len();
    let mut from: usize = 0;
    assert(query@.skip(0) =~= query@);
    loop
        invariant
            n == text@.len(),
            text@ == query@,
            name@ == key@,
            from <= n,
            parameter(query@, key@) == parameter(query@.skip(from as int), key@),
        decreases n - from,
    {
        let end = find(&text, from, n, '&');
        let eq = find(&text, from, end, '=');
        let ghost rest = query@.skip(from as int);
        let ghost pair = rest.take(end - from);
        proof {
            assert(text@.subrange(from as int, n as int) =~= rest);
            assert(text@.subrange(from as int, end as int) =~= pair);
            assert(pair.take(eq - from) =~= text@.subrange(from as int, eq as int));
        }
        if reads(&text, from, eq, &name) {
            let value = if eq < end {
                query.substring_char(eq + 1, end)
            } else {
                query.substring_char(end, end)
            };
            proof {
                if eq < end {
                    assert(pair.skip(eq - from + 1) =~= value@);
                } else {
                    assert(value@ =~= Seq::empty());
                }
            }
            return Some(value.to_owned());
        }
        if end < n {
            proof {
                assert(rest.skip(end - from + 1) =~= query@.skip(end + 1));
            }
            from = end + 1;
        } else {
            return None;
        }
    }
}

impl Mode {
    /// The mode that `req` asks for.
    pub open spec fn detected(req: &Request) -> Mode {
        mode_of(signal_of(req.query_text()))
    }

    /// The mode that `req` asks for: `API` or `Layout` where its query says
    /// so, and else `HTML`.
    pub fn detect(req: &Request) -> (mode: Mode)
        ensures
            mode == Self::detected(req),
    {
        let signal = match &req.query {
            Some(query) => query_parameter(query.as_str(), "realm_mode"),
            None => None,
        };
        match signal {
            Some(signal) => {
                if same_text(signal.as_str(), "api") {
                    Mode::API
                } else if same_text(signal.as_str(), "layout") {
                    Mode::Layout
                } else {
                    Mode::HTML
                }
            },
            None => Mode::HTML,
        }
    }

    /// The content type of a body in this mode.
    pub open spec fn content_kind(self) -> Seq<char> {
        match self {
            Mode::HTML => "text/html"@,
            _ => "application/json"@,
        }
    }

    /// The content type of a body in this mode: `text/html` for the
    /// document, `application/json` for the two others.
    pub fn content_type(&self) -> (kind: &'static str)
        ensures
            kind@ == self.content_kind(),
    {
        match self {
            Mode::HTML => "text/html",
            _ => "application/json",
        }
    }
}

/// A request is served as `HTML` unless it asks for another mode by name: one
/// without a query, one whose query has no parameter `realm_mode`, and one
/// whose parameter is neither `api` nor `layout`.
pub proof fn html_is_the_default(req: &Request)
    requires
        signal_of(req.query_text()) != Some("api"@),
        signal_of(req.query_text()) != Some("layout"@),
    ensures
        Mode::detected(req) == Mode::HTML,
{
}

} // verus!

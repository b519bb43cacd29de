//! The pages of the notepad and the addresses they live at: `/`, `/404`,
//! `/add` and `/edit/:id`.
use vstd::prelude::*;
use crate::jasper_ji::decimal::{
    all_digits, digits_value, format_u32, lemma_format_digits, lemma_format_no_leading_zero,
    parse_u32_range, spec_format_u32, spec_parse_u32,
};

verus! {

#[derive(Clone, Copy, PartialEq, Eq, Structural, Debug)]
pub enum Route {
    /// At `/`.
    Home,
    /// At `/404`; also where every address that names no page leads.
    NotFound,
    /// At `/add`.
    Add,
    /// At `/edit/:id`.
    Edit { id: u32 },
}

/// Drops one `/` at the end, as the router does before matching.
pub open spec fn strip_trailing_slash(p: Seq<char>) -> Seq<char> {
    if p.len() > 0 && p.last() == '/' { p.drop_last() } else { p }
}

/// Drops one `/` at the start, as the route matcher does.
pub open spec fn strip_leading_slash(p: Seq<char>) -> Seq<char> {
    if p.len() > 0 && p[0] == '/' { p.drop_first() } else { p }
}

/// The part of an address that is matched against the route table.
pub open spec fn route_body(path: Seq<char>) -> Seq<char> {
    strip_leading_slash(strip_trailing_slash(path))
}

pub open spec fn no_slash(s: Seq<char>) -> bool {
    forall|i: int| 0 <= i < s.len() ==> #[trigger] s[i] != '/'
}

pub open spec fn edit_prefix() -> Seq<char> {
    seq!['e', 'd', 'i', 't', '/']
}

/// The page an address leads to. The `:id` of `/edit/:id` is one non-empty
/// segment; when it is no `u32` in the sense of `u32::from_str`, or when no
/// route matches at all, the address leads to the not-found page.
pub open spec fn spec_recognize(path: Seq<char>) -> Route {
    let b = route_body(path);
    if b.len() == 0 {
        Route::Home
    } else if b == seq!['4', '0', '4'] {
        Route::NotFound
    } else if b == seq!['a', 'd', 'd'] {
        Route::Add
    } else if b.len() > 5 && b.take(5) == edit_prefix() && no_slash(b.skip(5)) {
        match spec_parse_u32(b.skip(5)) {
            Some(id) => Route::Edit { id },
            None => Route::NotFound,
        }
    } else {
        Route::NotFound
    }
}

/// The address of a page.
pub open spec fn spec_to_path(r: Route) -> Seq<char> {
    match r {
        Route::Home => seq!['/'],
        Route::NotFound => seq!['/', '4', '0', '4'],
        Route::Add => seq!['/', 'a', 'd', 'd'],
        Route::Edit { id } => seq!['/', 'e', 'd', 'i', 't', '/'] + spec_format_u32(id as nat),
    }
}

/// The page that a route pattern of the table, with the value captured for
/// its `:id`, stands for.
pub open spec fn spec_from_pattern(pattern: Seq<char>, id: Option<Seq<char>>) -> Option<Route> {
    if pattern == seq!['/'] {
        Some(Route::Home)
    } else if pattern == seq!['/', '4', '0', '4'] {
        Some(Route::NotFound)
    } else if pattern == seq!['/', 'a', 'd', 'd'] {
        Some(Route::Add)
    } else if pattern == seq!['/', 'e', 'd', 'i', 't', '/', ':', 'i', 'd'] {
        match id {
            Some(t) => match spec_parse_u32(t) {
                Some(id) => Some(Route::Edit { id }),
                None => None,
            },
            None => None,
        }
    } else {
        None
    }
}

/// Whether the characters of `s` from `at` on begin with `lit`.
fn text_at(s: &str, at: usize, lit: &str) -> (r: bool)
    requires
        at <= s@.len(),
    ensures
        r == (at + lit@.len() <= s@.len() && s@.subrange(at as int, at + lit@.len()) == lit@),
{
    let n = s.unicode_len();
    let m = lit.unicode_len();
    if m > n - at {
        return false;
    }
    let mut k: usize = 0;
    while k < m
        invariant
            n == s@.len(),
            m == lit@.len(),
            at + m <= n,
            k <= m,
            forall|j: int| 0 <= j < k ==> s@[at + j] == lit@[j],
        decreases m - k,
    {
        if s.get_char(at + k) != lit.get_char(k) {
            assert(s@.subrange(at as int, at + m)[k as int] != lit@[k as int]);
            return false;
        }
        k = k + 1;
    }
    assert(s@.subrange(at as int, at + m) =~= lit@);
    true
}

/// Whether `a` and `b` hold the same characters.
fn same_text(a: &str, b: &str) -> (r: bool)
    ensures
        r == (a@ == b@),
{
    if a.unicode_len() != b.unicode_len() {
        return false;
    }
    let r = text_at(a, 0, b);
    assert(a@.subrange(0, b@.len() as int) =~= a@);
    r
}

/// Whether no character of `s` in `from..to` is a `/`.
fn no_slash_in(s: &str, from: usize, to: usize) -> (r: bool)
    requires
        from <= to <= s@.len(),
    ensures
        r == no_slash(s@.subrange(from as int, to as int)),
{
    let mut k = from;
    while k < to
        invariant
            from <= k <= to <= s@.len(),
            forall|j: int| from <= j < k ==> s@[j] != '/',
        decreases to - k,
    {
        if s.get_char(k) == '/' {
            assert(s@.subrange(from as int, to as int)[k - from] == '/');
            return false;
        }
        k = k + 1;
    }
    assert forall|i: int| 0 <= i < to - from implies #[trigger] s@.subrange(
        from as int,
        to as int,
    )[i] != '/' by {
        assert(s@.subrange(from as int, to as int)[i] == s@[from + i]);
    }
    true
}

impl Route {
    /// The page that an address leads to; every address leads to one.
    pub fn recognize(pathname: &str) -> (r: Option<Route>)
        ensures
            r == Some(spec_recognize(pathname@)),
    {
        let ghost p = pathname@;
        let n = pathname.unicode_len();
        let end = if n > 0 && pathname.get_char(n - 1) == '/' { n - 1 } else { n };
        let start = if end > 0 && pathname.get_char(0) == '/' { 1 } else { 0 };
        let ghost b = p.subrange(start as int, end as int);
        assert(b =~= route_body(p)) by {
            let t = strip_trailing_slash(p);
            assert(t =~= p.subrange(0, end as int));
            if end > 0 {
                assert(t[0] == p[0]);
            }
        }
        let len = end - start;
        if len == 0 {
            return Some(Route::Home);
        }
        proof {
            reveal_strlit("404");
            reveal_strlit("add");
            reveal_strlit("edit/");
            assert("404"@ =~= seq!['4', '0', '4']);
            assert("add"@ =~= seq!['a', 'd', 'd']);
            assert("edit/"@ =~= edit_prefix());
            if len == 3 {
                assert(b =~= p.subrange(start as int, start + 3));
            }
        }
        if len == 3 && text_at(pathname, start, "404") {
            assert(b =~= seq!['4', '0', '4']);
            return Some(Route::NotFound);
        }
        if len == 3 && text_at(pathname, start, "add") {
            assert(b =~= seq!['a', 'd', 'd']);
            return Some(Route::Add);
        }
        assert(len == 3 ==> b != seq!['4', '0', '4']);
        assert(len == 3 ==> b != seq!['a', 'd', 'd']);
        if len > 5 && text_at(pathname, start, "edit/") && no_slash_in(pathname, start + 5, end) {
            assert(b.take(5) =~= edit_prefix());
            assert(b.skip(5) =~= p.subrange(start + 5, end as int));
            match parse_u32_range(pathname, start + 5, end) {
                Some(id) => {
                    return Some(Route::Edit { id });
                },
                None => {
                    return Some(Route::NotFound);
                },
            }
        }
        proof {
            if len > 5 && b.take(5) == edit_prefix() {
                assert(p.subrange(start as int, start + 5) =~= b.take(5));
                assert(b.skip(5) =~= p.subrange(start + 5, end as int));
            }
        }
        Some(Route::NotFound)
    }

    /// The address of the page.
    pub fn to_path(&self) -> (r: String)
        ensures
            r@ == spec_to_path(*self),
    {
        match self {
            Route::Home => {
                proof { reveal_strlit("/"); }
                String::from_str("/")
            },
            Route::NotFound => {
                proof { reveal_strlit("/404"); }
                String::from_str("/404")
            },
            Route::Add => {
                proof { reveal_strlit("/add"); }
                String::from_str("/add")
            },
            Route::Edit { id } => {
                proof { reveal_strlit("/edit/"); }
                let mut s = String::from_str("/edit/");
                let digits = format_u32(*id);
                s.append(digits.as_str());
                s
            },
        }
    }

    /// The page that a pattern of the route table stands for, given the text
    /// that the address held at the pattern's `:id`.
    pub fn from_pattern(pattern: &str, id: Option<&str>) -> (r: Option<Route>)
        ensures
            r == spec_from_pattern(
                pattern@,
                match id {
                    Some(t) => Some(t@),
                    None => None,
                },
            ),
    {
        proof {
            reveal_strlit("/");
            reveal_strlit("/404");
            reveal_strlit("/add");
            reveal_strlit("/edit/:id");
            assert("/"@ =~= seq!['/']);
            assert("/404"@ =~= seq!['/', '4', '0', '4']);
            assert("/add"@ =~= seq!['/', 'a', 'd', 'd']);
            assert("/edit/:id"@ =~= seq!['/', 'e', 'd', 'i', 't', '/', ':', 'i', 'd']);
        }
        if same_text(pattern, "/") {
            Some(Route::Home)
        } else if same_text(pattern, "/404") {
            Some(Route::NotFound)
        } else if same_text(pattern, "/add") {
            Some(Route::Add)
        } else if same_text(pattern, "/edit/:id") {
            match id {
                Some(t) => {
                    let n = t.unicode_len();
                    assert(t@.subrange(0, n as int) =~= t@);
                    match parse_u32_range(t, 0, n) {
                        Some(v) => Some(Route::Edit { id: v }),
                        None => None,
                    }
                },
                None => None,
            }
        } else {
            None
        }
    }

    /// The page that addresses naming no page lead to.
    pub fn not_found_route() -> (r: Option<Route>)
        ensures
            r == Some(Route::NotFound),
    {
        Some(Route::NotFound)
    }
}

/// Every page is found again at its own address.
pub proof fn lemma_recognize_to_path(r: Route)
    ensures
        spec_recognize(spec_to_path(r)) == r,
{
    let p = spec_to_path(r);
    match r {
        Route::Home => {
            assert(route_body(p) =~= Seq::<char>::empty());
        },
        Route::NotFound => {
            assert(route_body(p) =~= seq!['4', '0', '4']);
        },
        Route::Add => {
            assert(route_body(p) =~= seq!['a', 'd', 'd']);
        },
        Route::Edit { id } => {
            let d = spec_format_u32(id as nat);
            lemma_format_digits(id as nat);
            assert(p.last() == d.last());
            assert(d.last() != '/') by {
                assert(all_digits(d));
                assert(d.last() == d[d.len() - 1]);
            }
            let b = route_body(p);
            assert(b =~= seq!['e', 'd', 'i', 't', '/'] + d);
            assert(b.take(5) =~= edit_prefix());
            assert(b.skip(5) =~= d);
            assert(b != seq!['4', '0', '4']);
            assert(b != seq!['a', 'd', 'd']);
            assert(no_slash(d)) by {
                assert forall|i: int| 0 <= i < d.len() implies #[trigger] d[i] != '/' by {
                    assert(all_digits(d));
                }
            }
            crate::jasper_ji::decimal::lemma_parse_format_roundtrip(id);
        },
    }
}

/// The address of an edit page is `/edit/` followed by the id written in
/// decimal digits, without a leading zero.
pub proof fn lemma_edit_path(id: u32)
    ensures
        spec_to_path(Route::Edit { id }).len() > 6,
        spec_to_path(Route::Edit { id }).take(6) == seq!['/', 'e', 'd', 'i', 't', '/'],
        all_digits(spec_to_path(Route::Edit { id }).skip(6)),
        digits_value(spec_to_path(Route::Edit { id }).skip(6)) == id,
        spec_to_path(Route::Edit { id })[6] == '0' ==> id == 0,
{
    let p = spec_to_path(Route::Edit { id });
    let d = spec_format_u32(id as nat);
    lemma_format_digits(id as nat);
    lemma_format_no_leading_zero(id as nat);
    assert(p.take(6) =~= seq!['/', 'e', 'd', 'i', 't', '/']);
    assert(p.skip(6) =~= d);
    assert(p[6] == d[0]);
}

/// A page is found at its address with a `/` added at the end as well.
pub proof fn lemma_recognize_trailing_slash(r: Route)
    ensures
        spec_recognize(spec_to_path(r).push('/')) == r,
{
    let p = spec_to_path(r);
    let q = p.push('/');
    assert(strip_trailing_slash(q) =~= p);
    lemma_recognize_to_path(r);
    match r {
        Route::Home => {
            assert(route_body(q) =~= Seq::<char>::empty());
            assert(route_body(p) =~= Seq::<char>::empty());
        },
        Route::Edit { id } => {
            let d = spec_format_u32(id as nat);
            lemma_format_digits(id as nat);
            assert(p.last() == d.last());
            assert(d.last() == d[d.len() - 1]);
            assert(strip_trailing_slash(p) =~= p);
            assert(route_body(q) =~= route_body(p));
        },
        _ => {
            assert(strip_trailing_slash(p) =~= p);
            assert(route_body(q) =~= route_body(p));
        },
    }
}

/// The edit pattern reads the whole text captured for `:id` as a `u32`:
/// the decimal text of any id gives that id, and without a capture there is
/// no page. For every address `/edit/` followed by one non-empty segment,
/// the page found is what the pattern gives for that segment, or the
/// not-found page where it gives none.
pub proof fn lemma_edit_pattern(n: u32, t: Seq<char>)
    ensures
        spec_from_pattern(
            seq!['/', 'e', 'd', 'i', 't', '/', ':', 'i', 'd'],
            Some(spec_format_u32(n as nat)),
        ) == Some(Route::Edit { id: n }),
        spec_from_pattern(seq!['/', 'e', 'd', 'i', 't', '/', ':', 'i', 'd'], None) == None::<Route>,
        t.len() > 0 && no_slash(t) ==> spec_recognize(seq!['/', 'e', 'd', 'i', 't', '/'] + t) == match spec_from_pattern(
            seq!['/', 'e', 'd', 'i', 't', '/', ':', 'i', 'd'],
            Some(t),
        ) {
            Some(r) => r,
            None => Route::NotFound,
        },
{
    crate::jasper_ji::decimal::lemma_parse_format_roundtrip(n);
    let pat = seq!['/', 'e', 'd', 'i', 't', '/', ':', 'i', 'd'];
    assert(pat.len() == 9);
    assert(pat != seq!['/']) by {
        assert(seq!['/'].len() == 1);
    }
    assert(pat != seq!['/', '4', '0', '4']) by {
        assert(seq!['/', '4', '0', '4'].len() == 4);
    }
    assert(pat != seq!['/', 'a', 'd', 'd']) by {
        assert(seq!['/', 'a', 'd', 'd'].len() == 4);
    }
    if t.len() > 0 && no_slash(t) {
        let p = seq!['/', 'e', 'd', 'i', 't', '/'] + t;
        assert(p.last() == t[t.len() - 1]);
        assert(strip_trailing_slash(p) =~= p);
        let b = route_body(p);
        assert(b =~= seq!['e', 'd', 'i', 't', '/'] + t);
        assert(b.take(5) =~= edit_prefix());
        assert(b.skip(5) =~= t);
        assert(b.len() > 5);
        assert(b != seq!['4', '0', '4']) by {
            assert(seq!['4', '0', '4'].len() == 3);
        }
        assert(b != seq!['a', 'd', 'd']) by {
            assert(seq!['a', 'd', 'd'].len() == 3);
        }
    }
}

/// The patterns of the table without an `:id` stand for their pages,
/// whatever was captured.
pub proof fn lemma_pattern_table(id: Option<Seq<char>>)
    ensures
        spec_from_pattern(seq!['/'], id) == Some(Route::Home),
        spec_from_pattern(seq!['/', '4', '0', '4'], id) == Some(Route::NotFound),
        spec_from_pattern(seq!['/', 'a', 'd', 'd'], id) == Some(Route::Add),
{
    assert(seq!['/', '4', '0', '4'] != seq!['/']) by {
        assert(seq!['/'].len() == 1);
    }
    assert(seq!['/', 'a', 'd', 'd'] != seq!['/']) by {
        assert(seq!['/'].len() == 1);
    }
    assert(seq!['/', 'a', 'd', 'd'] != seq!['/', '4', '0', '4']) by {
        assert(seq!['/', 'a', 'd', 'd'][1] != seq!['/', '4', '0', '4'][1]);
    }
}

/// Only the home addresses lead home: the empty address, `/` and `//`.
/// Only `add`, with or without a `/` before and after it, leads to the add
/// page.
pub proof fn lemma_recognize_exact(p: Seq<char>)
    ensures
        spec_recognize(p) == Route::Home ==> (p == Seq::<char>::empty() || p == seq!['/'] || p
            == seq!['/', '/']),
        spec_recognize(p) == Route::Add ==> (p == seq!['a', 'd', 'd'] || p == seq![
            '/',
            'a',
            'd',
            'd',
        ] || p == seq!['a', 'd', 'd', '/'] || p == seq!['/', 'a', 'd', 'd', '/']),
{
    let t = strip_trailing_slash(p);
    let b = route_body(p);
    let trail = p.len() > 0 && p.last() == '/';
    let lead = t.len() > 0 && t[0] == '/';
    if spec_recognize(p) == Route::Home {
        assert(b.len() == 0);
        if trail {
            if lead {
                assert(t =~= seq!['/']);
                assert(p =~= seq!['/', '/']);
            } else {
                assert(t.len() == 0);
                assert(p =~= seq!['/']);
            }
        } else {
            assert(t =~= p);
            if lead {
                assert(p =~= seq!['/']);
            } else {
                assert(p =~= Seq::<char>::empty());
            }
        }
    }
    if spec_recognize(p) == Route::Add {
        assert(b.len() != 0);
        assert(b != seq!['4', '0', '4']);
        if b != seq!['a', 'd', 'd'] {
            assert(spec_recognize(p) != Route::Add);
        }
        assert(b =~= seq!['a', 'd', 'd']);
        if trail {
            if lead {
                assert(t =~= seq!['/', 'a', 'd', 'd']);
                assert(p =~= seq!['/', 'a', 'd', 'd', '/']);
            } else {
                assert(t =~= seq!['a', 'd', 'd']);
                assert(p =~= seq!['a', 'd', 'd', '/']);
            }
        } else {
            assert(t =~= p);
            if lead {
                assert(p =~= seq!['/', 'a', 'd', 'd']);
            } else {
                assert(p =~= seq!['a', 'd', 'd']);
            }
        }
    }
}

} // verus!

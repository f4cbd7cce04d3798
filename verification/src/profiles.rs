//! The profiles screen: the listing that `geode profile list` prints, and the choice of
//! the active profile.
use vstd::prelude::*;
use crate::command::{command_model, profile_list, profile_select, CommandLine};
use crate::text::{
    lemma_lines_split_first, lemma_first_index_of, lemma_lines_without_newline, lemma_trim_fixed, lemma_trim_idempotent,
    lemma_trimmed_ends, trim_end, is_white_space,
    chars_of, find_char, first_index_of, last_index_of, lines_after, lines_of, rfind_char,
    skip_leading, skip_leading_index, string_of, trim, trim_range, trim_start, trim_start_index,
    without_cr,
};

verus! {

/// A profile as the specification sees it.
pub struct ProfileModel {
    pub name: Seq<char>,
    pub path: Seq<char>,
    pub active: bool,
}

/// One profile of the listing: its name, the path of its game folder, and whether it is the
/// one in use.
#[derive(Debug, Clone)]
pub struct Profile {
    pub name: String,
    pub path: String,
    pub active: bool,
}

impl View for Profile {
    type V = ProfileModel;

    open spec fn view(&self) -> ProfileModel {
        ProfileModel { name: self.name@, path: self.path@, active: self.active }
    }
}

/// The views of a list of profiles.
pub open spec fn profile_views(v: Seq<Profile>) -> Seq<ProfileModel> {
    v.map_values(|p: Profile| p@)
}

/// The key that opens the bracketed part of a listing line.
pub open spec fn path_key() -> Seq<char> {
    seq!['p', 'a', 't', 'h']
}

/// A listing line without its marks: trimmed, its leading `*`s dropped, trimmed again.
pub open spec fn entry_text(line: Seq<char>) -> Seq<char> {
    trim(skip_leading(trim(line), '*'))
}

/// The positions of the first `[` and the last `]` of `u`, when both occur.
pub open spec fn brackets(u: Seq<char>) -> Option<(int, int)> {
    match (first_index_of(u, '['), last_index_of(u, ']')) {
        (Some(open), Some(close)) => Some((open, close)),
        _ => None,
    }
}

/// A line on which the listing's reader cannot cut out the bracketed part: its last `]`
/// stands before its first `[`.
pub open spec fn line_is_malformed(line: Seq<char>) -> bool {
    &&& trim(line).len() > 0
    &&& match brackets(entry_text(line)) {
        Some((open, close)) => close < open + 1,
        None => false,
    }
}

/// The profile that a line of `geode profile list` describes, if any.
///
/// A line such as `* name [ path = /some/where ]` names a profile; a leading `*` marks the
/// active one. The name is what stands before the first `[`; between it and the last `]`
/// the text must start with `path`, and the path is what follows, after white space and
/// any `=`s.
pub open spec fn parse_line(line: Seq<char>) -> Option<ProfileModel> {
    let t = trim(line);
    let u = entry_text(line);
    if t.len() == 0 {
        None
    } else {
        match brackets(u) {
            Some((open, close)) => {
                let inner = trim(u.subrange(open + 1, close));
                if open + 1 <= close && inner.len() >= 4 && inner.subrange(0, 4) == path_key() {
                    Some(
                        ProfileModel {
                            name: trim(u.subrange(0, open)),
                            path: trim(
                                skip_leading(trim_start(inner.subrange(4, inner.len() as int)), '='),
                            ),
                            active: t[0] == '*',
                        },
                    )
                } else {
                    None
                }
            },
            None => None,
        }
    }
}

/// The profiles that the lines `ls` describe, in order.
pub open spec fn parsed_lines(ls: Seq<Seq<char>>) -> Seq<ProfileModel>
    decreases ls.len(),
{
    if ls.len() == 0 {
        seq![]
    } else {
        match parse_line(ls[0]) {
            Some(p) => seq![p] + parsed_lines(ls.drop_first()),
            None => parsed_lines(ls.drop_first()),
        }
    }
}

/// The profiles that the listing `s` describes.
pub open spec fn parse_listing(s: Seq<char>) -> Seq<ProfileModel> {
    parsed_lines(lines_of(s))
}

/// No line of the listing is malformed.
pub open spec fn listing_is_well_formed(s: Seq<char>) -> bool {
    forall|k: int| 0 <= k < lines_of(s).len() ==> !line_is_malformed(#[trigger] lines_of(s)[k])
}

proof fn lemma_parsed_lines_cons(x: Seq<char>, rest: Seq<Seq<char>>)
    ensures
        parsed_lines(seq![x] + rest) == match parse_line(x) {
            Some(p) => seq![p] + parsed_lines(rest),
            None => parsed_lines(rest),
        },
{
    assert((seq![x] + rest).drop_first() =~= rest);
    assert((seq![x] + rest)[0] == x);
}

/// Reads the profile that the line `v[lo..hi]` describes.
fn parse_profile_line(v: &Vec<char>, lo: usize, hi: usize) -> (r: Option<Profile>)
    requires
        lo <= hi <= v.len(),
        !line_is_malformed(v@.subrange(lo as int, hi as int)),
    ensures
        match r {
            Some(p) => parse_line(v@.subrange(lo as int, hi as int)) == Some(p@),
            None => parse_line(v@.subrange(lo as int, hi as int)) is None,
        },
{
    let ghost line = v@.subrange(lo as int, hi as int);
    let (a, b) = trim_range(v, lo, hi);
    if a == b {
        return None;
    }
    let active = v[a] == '*';
    let s1 = skip_leading_index(v, a, b, '*');
    let (ua, ub) = trim_range(v, s1, b);
    assert(v@.subrange(ua as int, ub as int) == entry_text(line));
    let ghost u = v@.subrange(ua as int, ub as int);
    let open = match find_char(v, ua, ub, '[') {
        Some(o) => o,
        None => {
            return None;
        },
    };
    let close = match rfind_char(v, ua, ub, ']') {
        Some(c) => c,
        None => {
            return None;
        },
    };
    assert(brackets(u) == Some(((open - ua) as int, (close - ua) as int)));
    assert(open + 1 <= close);
    let (na, nb) = trim_range(v, ua, open);
    let (ia, ib) = trim_range(v, open + 1, close);
    assert(u.subrange(0, open - ua) =~= v@.subrange(ua as int, open as int));
    assert(u.subrange(open + 1 - ua, close - ua) =~= v@.subrange(open + 1, close as int));
    let ghost inner = v@.subrange(ia as int, ib as int);
    if ib - ia < 4 || v[ia] != 'p' || v[ia + 1] != 'a' || v[ia + 2] != 't' || v[ia + 3] != 'h' {
        assert(inner.len() < 4 || inner.subrange(0, 4) != path_key()) by {
            if inner.len() >= 4 && inner.subrange(0, 4) == path_key() {
                assert(inner.subrange(0, 4)[0] == v@[ia as int]);
                assert(inner.subrange(0, 4)[1] == v@[ia + 1]);
                assert(inner.subrange(0, 4)[2] == v@[ia + 2]);
                assert(inner.subrange(0, 4)[3] == v@[ia + 3]);
            }
        }
        return None;
    }
    assert(inner.subrange(0, 4) =~= path_key());
    let r1 = trim_start_index(v, ia + 4, ib);
    assert(inner.subrange(4, inner.len() as int) =~= v@.subrange(ia + 4, ib as int));
    let r2 = skip_leading_index(v, r1, ib, '=');
    let (pa, pb) = trim_range(v, r2, ib);
    let name = string_of(v, na, nb);
    let path = string_of(v, pa, pb);
    Some(Profile { name, path, active })
}

/// Reads the profiles that `geode profile list` printed, one per line that describes one.
pub fn parse_profiles(output: &str) -> (r: Vec<Profile>)
    requires
        listing_is_well_formed(output@),
    ensures
        profile_views(r@) == parse_listing(output@),
{
    let v = chars_of(output);
    let mut out: Vec<Profile> = Vec::new();
    let mut start: usize = 0;
    let mut i: usize = 0;
    let ghost mut done: Seq<Seq<char>> = seq![];
    assert(v@.skip(0) =~= v@);
    assert(v@.subrange(0, 0) =~= Seq::<char>::empty());
    while i < v.len()
        invariant
            start <= i <= v.len(),
            v@ == output@,
            listing_is_well_formed(v@),
            done + lines_after(v@.skip(i as int), v@.subrange(start as int, i as int)) == lines_of(
                v@,
            ),
            profile_views(out@) + parsed_lines(
                lines_after(v@.skip(i as int), v@.subrange(start as int, i as int)),
            ) == parse_listing(v@),
        decreases v.len() - i,
    {
        let ghost cur = v@.subrange(start as int, i as int);
        let ghost rest = v@.skip(i as int);
        assert(rest.drop_first() =~= v@.skip(i + 1));
        assert(rest[0] == v@[i as int]);
        if v[i] == '\n' {
            let end = if i > start && v[i - 1] == '\r' {
                i - 1
            } else {
                i
            };
            assert(v@.subrange(start as int, end as int) =~= without_cr(cur));
            let ghost tail = lines_after(v@.skip(i + 1), seq![]);
            assert(lines_after(rest, cur) == seq![without_cr(cur)] + tail);
            assert((done + (seq![without_cr(cur)] + tail))[done.len() as int] == without_cr(cur));
            assert(!line_is_malformed(without_cr(cur)));
            proof {
                lemma_parsed_lines_cons(without_cr(cur), tail);
            }
            let ghost before = profile_views(out@);
            match parse_profile_line(&v, start, end) {
                Some(p) => {
                    out.push(p);
                    assert(profile_views(out@) =~= before.push(p@));
                    assert(before + (seq![p@] + parsed_lines(tail)) =~= before.push(p@)
                        + parsed_lines(tail));
                },
                None => {},
            }
            proof {
                assert(done + (seq![without_cr(cur)] + tail) =~= done.push(without_cr(cur))
                    + tail);
                done = done.push(without_cr(cur));
            }
            start = i + 1;
            assert(v@.subrange(start as int, i + 1) =~= Seq::<char>::empty());
        } else {
            assert(cur.push(v@[i as int]) =~= v@.subrange(start as int, i + 1));
        }
        i = i + 1;
    }
    let ghost cur = v@.subrange(start as int, i as int);
    assert(v@.skip(i as int) =~= Seq::<char>::empty());
    if start < v.len() {
        assert(lines_after(v@.skip(i as int), cur) == seq![cur]);
        assert((done + seq![cur])[done.len() as int] == cur);
        assert(!line_is_malformed(cur));
        proof {
            lemma_parsed_lines_cons(cur, seq![]);
        }
        let ghost before = profile_views(out@);
        match parse_profile_line(&v, start, v.len()) {
            Some(p) => {
                out.push(p);
                assert(profile_views(out@) =~= before.push(p@));
                assert(before + (seq![p@] + parsed_lines(seq![])) =~= before.push(p@));
            },
            None => {
                assert(before + parsed_lines(seq![]) =~= before);
            },
        }
    } else {
        assert(profile_views(out@) + parsed_lines(seq![]) =~= profile_views(out@));
    }
    out
}


/// Whether the line `v[lo..hi]` is malformed.
fn malformed_line(v: &Vec<char>, lo: usize, hi: usize) -> (r: bool)
    requires
        lo <= hi <= v.len(),
    ensures
        r == line_is_malformed(v@.subrange(lo as int, hi as int)),
{
    let ghost line = v@.subrange(lo as int, hi as int);
    let (a, b) = trim_range(v, lo, hi);
    if a == b {
        return false;
    }
    let s1 = skip_leading_index(v, a, b, '*');
    let (ua, ub) = trim_range(v, s1, b);
    assert(v@.subrange(ua as int, ub as int) == entry_text(line));
    match (find_char(v, ua, ub, '['), rfind_char(v, ua, ub, ']')) {
        (Some(open), Some(close)) => close < open + 1,
        _ => false,
    }
}

/// Whether some line of the listing is malformed, so that `parse_profiles` cannot read it.
pub fn listing_has_malformed_line(output: &str) -> (r: bool)
    ensures
        r == !listing_is_well_formed(output@),
{
    let v = chars_of(output);
    let mut start: usize = 0;
    let mut i: usize = 0;
    let ghost mut done: Seq<Seq<char>> = seq![];
    assert(v@.skip(0) =~= v@);
    assert(v@.subrange(0, 0) =~= Seq::<char>::empty());
    while i < v.len()
        invariant
            start <= i <= v.len(),
            v@ == output@,
            done + lines_after(v@.skip(i as int), v@.subrange(start as int, i as int)) == lines_of(
                v@,
            ),
            forall|k: int| 0 <= k < done.len() ==> !line_is_malformed(#[trigger] done[k]),
        decreases v.len() - i,
    {
        let ghost cur = v@.subrange(start as int, i as int);
        let ghost rest = v@.skip(i as int);
        assert(rest.drop_first() =~= v@.skip(i + 1));
        assert(rest[0] == v@[i as int]);
        if v[i] == '\n' {
            let end = if i > start && v[i - 1] == '\r' {
                i - 1
            } else {
                i
            };
            assert(v@.subrange(start as int, end as int) =~= without_cr(cur));
            let ghost tail = lines_after(v@.skip(i + 1), seq![]);
            assert(lines_after(rest, cur) == seq![without_cr(cur)] + tail);
            assert((done + (seq![without_cr(cur)] + tail))[done.len() as int] == without_cr(cur));
            if malformed_line(&v, start, end) {
                assert(!listing_is_well_formed(v@));
                return true;
            }
            proof {
                assert(done + (seq![without_cr(cur)] + tail) =~= done.push(without_cr(cur))
                    + tail);
                done = done.push(without_cr(cur));
            }
            start = i + 1;
            assert(v@.subrange(start as int, i + 1) =~= Seq::<char>::empty());
        } else {
            assert(cur.push(v@[i as int]) =~= v@.subrange(start as int, i + 1));
        }
        i = i + 1;
    }
    let ghost cur = v@.subrange(start as int, i as int);
    assert(v@.skip(i as int) =~= Seq::<char>::empty());
    if start < v.len() {
        assert(lines_after(v@.skip(i as int), cur) == seq![cur]);
        assert((done + seq![cur])[done.len() as int] == cur);
        if malformed_line(&v, start, v.len()) {
            return true;
        }
        assert forall|k: int| 0 <= k < lines_of(v@).len() implies !line_is_malformed(
            #[trigger] lines_of(v@)[k],
        ) by {
            assert(lines_of(v@) == done + seq![cur]);
            if k < done.len() {
                assert(lines_of(v@)[k] == done[k]);
            }
        }
    } else {
        assert(lines_of(v@) =~= done);
    }
    false
}

/// `p`, active exactly when its name is `name`.
pub open spec fn marked_if_named(p: ProfileModel, name: Seq<char>) -> ProfileModel {
    ProfileModel { name: p.name, path: p.path, active: p.name == name }
}

/// A profile whose name and path carry no white space at either end.
pub open spec fn profile_is_trimmed(p: ProfileModel) -> bool {
    trim(p.name) == p.name && trim(p.path) == p.path
}

proof fn lemma_parse_line_trimmed(line: Seq<char>)
    ensures
        parse_line(line) matches Some(p) ==> profile_is_trimmed(p),
{
    let u = entry_text(line);
    if let Some((open, close)) = brackets(u) {
        let inner = trim(u.subrange(open + 1, close));
        lemma_trim_idempotent(u.subrange(0, open));
        if inner.len() >= 4 {
            lemma_trim_idempotent(
                skip_leading(trim_start(inner.subrange(4, inner.len() as int)), '='),
            );
        }
    }
}

proof fn lemma_parsed_lines_trimmed(ls: Seq<Seq<char>>)
    ensures
        forall|i: int|
            0 <= i < parsed_lines(ls).len() ==> profile_is_trimmed(#[trigger] parsed_lines(ls)[i]),
    decreases ls.len(),
{
    if ls.len() > 0 {
        lemma_parsed_lines_trimmed(ls.drop_first());
        lemma_parse_line_trimmed(ls[0]);
        if let Some(p) = parse_line(ls[0]) {
            let rest = parsed_lines(ls.drop_first());
            assert forall|i: int| 0 <= i < parsed_lines(ls).len() implies profile_is_trimmed(
                #[trigger] parsed_lines(ls)[i],
            ) by {
                if i > 0 {
                    assert(parsed_lines(ls)[i] == rest[i - 1]);
                } else {
                    assert(parsed_lines(ls)[0] == p);
                }
            }
        } else {
            assert(parsed_lines(ls) == parsed_lines(ls.drop_first()));
        }
    }
}

/// Every profile read from a listing has its name and path trimmed.
pub proof fn lemma_listing_profiles_trimmed(s: Seq<char>)
    ensures
        forall|i: int|
            0 <= i < parse_listing(s).len() ==> profile_is_trimmed(#[trigger] parse_listing(s)[i]),
{
    lemma_parsed_lines_trimmed(lines_of(s));
}

/// The listing line `n [path=p]`, marked active with a leading `*` when `marked`.
pub open spec fn listing_line(n: Seq<char>, p: Seq<char>, marked: bool) -> Seq<char> {
    (if marked {
        seq!['*']
    } else {
        Seq::empty()
    }) + n + seq![' ', '[', 'p', 'a', 't', 'h', '='] + p + seq![']']
}

/// A listing is read line by line: a first line `l`, ended by a line break, contributes
/// the profiles it describes, in front of those of the rest of the listing.
pub proof fn lemma_listing_lines_concatenate(l: Seq<char>, rest: Seq<char>)
    requires
        forall|i: int| 0 <= i < l.len() ==> l[i] != '\n',
        l.len() == 0 || l.last() != '\r',
    ensures
        parse_listing(l + seq!['\n'] + rest) == parse_listing(l) + parse_listing(rest),
{
    lemma_lines_split_first(l, rest, Seq::empty());
    assert(Seq::<char>::empty() + l =~= l);
    assert(without_cr(l) == l);
    lemma_parsed_lines_cons(l, lines_of(rest));
    lemma_lines_without_newline(l, Seq::empty());
    if l.len() == 0 {
        assert(parse_line(l) is None);
        assert(parse_listing(l) =~= Seq::<ProfileModel>::empty());
        assert(parse_listing(l) + parse_listing(rest) =~= parse_listing(rest));
    } else {
        lemma_parsed_lines_cons(l, Seq::empty());
        assert(seq![l] + Seq::<Seq<char>>::empty() =~= seq![l]);
        assert(lines_of(l) == seq![l]);
        match parse_line(l) {
            Some(q) => {
                assert(parse_listing(l) =~= seq![q]);
            },
            None => {
                assert(parse_listing(l) =~= Seq::<ProfileModel>::empty());
                assert(parse_listing(l) + parse_listing(rest) =~= parse_listing(rest));
            },
        }
    }
}

/// The text after the name on a listing line: ` [path=`, the path, `]`.
pub open spec fn line_tail(p: Seq<char>) -> Seq<char> {
    seq![' ', '[', 'p', 'a', 't', 'h', '='] + p + seq![']']
}

proof fn lemma_single_line_listing(line: Seq<char>)
    requires
        line.len() > 0,
        forall|i: int| 0 <= i < line.len() ==> #[trigger] line[i] != '\n',
    ensures
        parse_listing(line) == match parse_line(line) {
            Some(q) => seq![q],
            None => Seq::<ProfileModel>::empty(),
        },
{
    lemma_lines_without_newline(line, Seq::empty());
    assert(Seq::<char>::empty() + line =~= line);
    lemma_parsed_lines_cons(line, Seq::empty());
    assert(seq![line] + Seq::<Seq<char>>::empty() =~= seq![line]);
    if let Some(q) = parse_line(line) {
        assert(seq![q] + parsed_lines(Seq::<Seq<char>>::empty()) =~= seq![q]);
    }
}

proof fn lemma_line_has_no_break(n: Seq<char>, p: Seq<char>, marked: bool)
    requires
        forall|i: int| 0 <= i < n.len() ==> #[trigger] n[i] != '\n',
        forall|i: int| 0 <= i < p.len() ==> #[trigger] p[i] != '\n',
    ensures
        forall|i: int|
            0 <= i < listing_line(n, p, marked).len() ==> #[trigger] listing_line(n, p, marked)[i]
                != '\n',
{
    let line = listing_line(n, p, marked);
    let body = n + line_tail(p);
    let head = seq![' ', '[', 'p', 'a', 't', 'h', '='];
    let nl = n.len() as int;
    let pl = p.len() as int;
    assert(line_tail(p) =~= head + p + seq![']']);
    assert(line =~= (if marked {
        seq!['*']
    } else {
        Seq::<char>::empty()
    }) + body);
    assert forall|i: int| 0 <= i < body.len() implies #[trigger] body[i] != '\n' by {
        if i < nl {
            assert(body[i] == n[i]);
        } else if i < nl + 7 {
            assert(body[i] == head[i - nl]);
        } else if i < nl + 7 + pl {
            assert(body[i] == p[i - nl - 7]);
        } else {
            assert(body[i] == ']');
        }
    }
    assert forall|i: int| 0 <= i < line.len() implies #[trigger] line[i] != '\n' by {
        if marked {
            if i > 0 {
                assert(line[i] == body[i - 1]);
            }
        } else {
            assert(line[i] == body[i]);
        }
    }
}

proof fn lemma_line_entry(n: Seq<char>, p: Seq<char>, marked: bool)
    requires
        n.len() > 0,
        !is_white_space(n[0]),
        n[0] != '*',
    ensures
        trim(listing_line(n, p, marked)) == listing_line(n, p, marked),
        listing_line(n, p, marked)[0] == if marked {
            '*'
        } else {
            n[0]
        },
        entry_text(listing_line(n, p, marked)) == n + line_tail(p),
{
    let line = listing_line(n, p, marked);
    let body = n + line_tail(p);
    assert(line =~= (if marked {
        seq!['*']
    } else {
        Seq::<char>::empty()
    }) + body);
    assert(body[0] == n[0]);
    assert(body.last() == ']');
    assert(line.last() == ']');
    if marked {
        assert(line[0] == '*');
        assert(line.drop_first() =~= body);
    } else {
        assert(line[0] == n[0]);
    }
    lemma_trim_fixed(line);
    assert(skip_leading(body, '*') == body);
    assert(skip_leading(line, '*') == body);
    lemma_trim_fixed(body);
}

proof fn lemma_body_brackets(n: Seq<char>, p: Seq<char>)
    requires
        forall|i: int| 0 <= i < n.len() ==> #[trigger] n[i] != '[',
    ensures
        brackets(n + line_tail(p)) == Some((n.len() + 1 as int, n.len() + 7 + p.len() as int)),
{
    let body = n + line_tail(p);
    let nl = n.len() as int;
    assert(body.len() == nl + 8 + p.len());
    lemma_first_index_of(body, '[');
    assert(body[nl + 1] == '[');
    assert forall|j: int| 0 <= j < nl + 1 implies body[j] != '[' by {
        if j < nl {
            assert(body[j] == n[j]);
        } else {
            assert(body[j] == ' ');
        }
    }
    assert(first_index_of(body, '[') == Some(nl + 1));
    assert(body.last() == ']');
    assert(last_index_of(body, ']') == Some(body.len() - 1));
}

proof fn lemma_body_name(n: Seq<char>, p: Seq<char>)
    requires
        n.len() > 0,
        trim(n) == n,
    ensures
        trim((n + line_tail(p)).subrange(0, n.len() + 1 as int)) == n,
{
    lemma_trimmed_ends(n);
    let before = (n + line_tail(p)).subrange(0, n.len() + 1 as int);
    assert(before =~= n.push(' '));
    assert(before.drop_last() =~= n);
    assert(before[0] == n[0]);
    assert(trim_start(before) == before);
    assert(trim_end(n) == n);
    assert(trim_end(before) == trim_end(before.drop_last()));
}

proof fn lemma_body_path(n: Seq<char>, p: Seq<char>)
    requires
        p.len() > 0,
        trim(p) == p,
        p[0] != '=',
    ensures
        ({
            let inner = trim((n + line_tail(p)).subrange(n.len() + 2 as int, n.len() + 7 + p.len() as int));
            &&& inner.len() >= 4
            &&& inner.subrange(0, 4) == path_key()
            &&& trim(skip_leading(trim_start(inner.subrange(4, inner.len() as int)), '=')) == p
        }),
{
    lemma_trimmed_ends(p);
    let raw = (n + line_tail(p)).subrange(n.len() + 2 as int, n.len() + 7 + p.len() as int);
    assert(raw =~= seq!['p', 'a', 't', 'h', '='] + p);
    assert(raw[0] == 'p');
    assert(raw.last() == p.last());
    lemma_trim_fixed(raw);
    assert(raw.subrange(0, 4) =~= path_key());
    let after = raw.subrange(4, raw.len() as int);
    assert(after =~= seq!['='] + p);
    assert(trim_start(after) == after);
    assert(after.drop_first() =~= p);
    assert(skip_leading(after, '=') == skip_leading(p, '='));
    assert(skip_leading(p, '=') == p);
}

/// A listing made of the one line `n [path=p]` (with `*` in front when `marked`) describes
/// one profile: its name is the whole of `n`, inner spaces included, its path is `p`, and
/// it is active exactly when marked.
///
/// This holds for every name `n` that is trimmed, not empty, does not start with `*` and
/// holds no `[`, and every path `p` that is trimmed, not empty and does not start with
/// `=`, neither holding a line break.
pub proof fn lemma_listing_line_parsed(n: Seq<char>, p: Seq<char>, marked: bool)
    requires
        n.len() > 0,
        trim(n) == n,
        n[0] != '*',
        forall|i: int| 0 <= i < n.len() ==> #[trigger] n[i] != '[' && n[i] != '\n',
        p.len() > 0,
        trim(p) == p,
        p[0] != '=',
        forall|i: int| 0 <= i < p.len() ==> #[trigger] p[i] != '\n',
    ensures
        parse_listing(listing_line(n, p, marked)) == seq![
            ProfileModel { name: n, path: p, active: marked },
        ],
{
    let line = listing_line(n, p, marked);
    let body = n + line_tail(p);
    lemma_trimmed_ends(n);
    lemma_line_has_no_break(n, p, marked);
    assert(line.len() > 0);
    lemma_single_line_listing(line);
    lemma_line_entry(n, p, marked);
    lemma_body_brackets(n, p);
    lemma_body_name(n, p);
    lemma_body_path(n, p);
    assert(parse_line(line) == Some(ProfileModel { name: n, path: p, active: marked }));
}

impl Profile {
    /// The text under which the profile is listed: `* ` and the name for the active one, a
    /// space and the name for the others.
    pub fn label(&self) -> (r: String)
        ensures
            r@ == if self.active {
                "* "@ + self.name@
            } else {
                " "@ + self.name@
            },
    {
        let mut r = if self.active {
            String::from_str("* ")
        } else {
            String::from_str(" ")
        };
        r.append(self.name.as_str());
        r
    }
}

/// What the profiles screen is told.
#[derive(Debug, Clone)]
pub enum Message {
    /// Ask the tool for the list of profiles again.
    Refresh,
    /// The tool printed this listing.
    Loaded(String),
    /// Make the profile of this name the active one.
    Select(String),
    /// The profile of this name was selected.
    Selected(String),
}

/// The outside work that the profiles screen asks for.
#[derive(Debug, Clone)]
pub enum Effect {
    Idle,
    /// Run the command; what it prints comes back as `Message::Loaded`.
    ListProfiles(CommandLine),
    /// Run the command; when it ends, `Message::Selected` with the name comes back.
    SelectProfile(CommandLine, String),
}

/// The profiles screen: the profiles that the last listing described.
pub struct Tab {
    pub profiles: Vec<Profile>,
}

impl Default for Tab {
    fn default() -> (r: Tab)
        ensures
            r.profiles@.len() == 0,
    {
        Tab { profiles: Vec::new() }
    }
}

/// The profiles after `m`, when they were `ps`.
///
/// A listing replaces the profiles; a selection marks as active exactly the profiles of
/// that name and leaves every name and path as it was.
pub open spec fn profiles_after(ps: Seq<ProfileModel>, m: Message) -> Seq<ProfileModel> {
    match m {
        Message::Loaded(output) => parse_listing(output@),
        Message::Selected(name) => ps.map_values(|p: ProfileModel| marked_if_named(p, name@)),
        _ => ps,
    }
}

/// Whether `e` is the outside work that `m` asks of the profiles screen, for the tool at
/// `geode_path`.
pub open spec fn profiles_effect(geode_path: Seq<char>, m: Message, e: Effect) -> bool {
    match m {
        Message::Refresh => e matches Effect::ListProfiles(c) && c@ == command_model(
            geode_path,
            seq!["profile"@, "list"@],
        ),
        Message::Select(name) => e matches Effect::SelectProfile(c, n) && c@ == command_model(
            geode_path,
            seq!["profile"@, "select"@, name@],
        ) && n@ == name@,
        _ => e is Idle,
    }
}

/// A message that the profiles screen can take: a listing it is given can be read.
pub open spec fn profiles_accept(m: Message) -> bool {
    m matches Message::Loaded(output) ==> listing_is_well_formed(output@)
}

/// Selecting a profile by name keeps the list, every name and every path, and marks as
/// active exactly the profiles of that name; refreshing and asking for a selection keep
/// the list; a listing replaces it with the profiles the listing describes.
pub proof fn lemma_selection_marks_by_name(ps: Seq<ProfileModel>, name: String, output: String)
    ensures
        profiles_after(ps, Message::Selected(name)).len() == ps.len(),
        forall|i: int|
            0 <= i < ps.len() ==> {
                let q = #[trigger] profiles_after(ps, Message::Selected(name))[i];
                &&& q.name == ps[i].name
                &&& q.path == ps[i].path
                &&& q.active == (ps[i].name == name@)
            },
        profiles_after(ps, Message::Refresh) == ps,
        profiles_after(ps, Message::Select(name)) == ps,
        profiles_after(ps, Message::Loaded(output)) == parse_listing(output@),
{
}

impl Tab {
    /// The profiles as the specification sees them.
    pub open spec fn model(&self) -> Seq<ProfileModel> {
        profile_views(self.profiles@)
    }

    /// Handles one message; `geode_path` is the tool to run.
    pub fn update(&mut self, geode_path: &str, message: Message) -> (effect: Effect)
        requires
            profiles_accept(message),
        ensures
            final(self).model() == profiles_after(old(self).model(), message),
            profiles_effect(geode_path@, message, effect),
    {
        match message {
            Message::Refresh => Effect::ListProfiles(profile_list(geode_path)),
            Message::Loaded(output) => {
                self.profiles = parse_profiles(output.as_str());
                Effect::Idle
            },
            Message::Select(name) => {
                let c = profile_select(geode_path, name.as_str());
                Effect::SelectProfile(c, name)
            },
            Message::Selected(name) => {
                self.select_by_name(&name);
                assert(self.model() =~= old(self).model().map_values(
                    |p: ProfileModel| marked_if_named(p, name@),
                ));
                Effect::Idle
            },
        }
    }

    /// Marks as active exactly the profiles called `name`.
    fn select_by_name(&mut self, name: &String)
        ensures
            final(self).profiles@.len() == old(self).profiles@.len(),
            forall|i: int|
                0 <= i < old(self).profiles@.len() ==> (#[trigger] final(self).profiles@[i])@
                    == marked_if_named(old(self).profiles@[i]@, name@),
    {
        let mut old_profiles: Vec<Profile> = Vec::new();
        std::mem::swap(&mut old_profiles, &mut self.profiles);
        let ghost before = old_profiles@;
        let mut updated: Vec<Profile> = Vec::new();
        for p in it: old_profiles.into_iter()
            invariant
                it.seq() == before,
                updated@.len() == it.index(),
                forall|i: int|
                    0 <= i < it.index() ==> (#[trigger] updated@[i])@ == marked_if_named(
                        before[i]@,
                        name@,
                    ),
        {
            let active = p.name == *name;
            updated.push(Profile { name: p.name, path: p.path, active });
        }
        self.profiles = updated;
    }
}

} // verus!

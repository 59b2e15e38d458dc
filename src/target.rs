//! Where a template file of the tree is written.
//!
//! Paths are compared by their components, as std's `Path` does on Unix. A path
//! is absolute when it starts with `/`. Its components are the pieces between
//! separators, with empty pieces (from repeated or trailing separators) and `.`
//! pieces dropped; a relative path that starts with `.` keeps that one `.` as
//! its first component.

use vstd::prelude::*;
use crate::text::{chars_of, string_of};

verus! {

/// A template path that does not lie under the tree's root.
#[derive(Debug, Clone, PartialEq, Eq)]
pub struct OutsideRoot {
    pub root: String,
    pub path: String,
}

/// `done` with the piece `cur` added, unless it is empty or `.`.
pub open spec fn flush(done: Seq<Seq<char>>, cur: Seq<char>) -> Seq<Seq<char>> {
    if cur.len() == 0 || cur == seq!['.'] {
        done
    } else {
        done.push(cur)
    }
}

/// The components completed within the first `i` characters of `s`, and the
/// piece still open after them.
pub open spec fn scan(s: Seq<char>, i: int) -> (Seq<Seq<char>>, Seq<char>)
    decreases i,
{
    if i <= 0 {
        (Seq::empty(), Seq::empty())
    } else {
        let (done, cur) = scan(s, i - 1);
        if s[i - 1] == '/' {
            (flush(done, cur), Seq::empty())
        } else {
            (done, cur.push(s[i - 1]))
        }
    }
}

pub open spec fn is_absolute(s: Seq<char>) -> bool {
    s.len() > 0 && s[0] == '/'
}

/// Whether `s` is relative and starts with the component `.`.
pub open spec fn starts_at_current(s: Seq<char>) -> bool {
    s.len() > 0 && s[0] == '.' && (s.len() == 1 || s[1] == '/')
}

/// The components of the path `s`.
pub open spec fn components(s: Seq<char>) -> Seq<Seq<char>> {
    let lead = if starts_at_current(s) {
        seq![seq!['.']]
    } else {
        Seq::empty()
    };
    lead + flush(scan(s, s.len() as int).0, scan(s, s.len() as int).1)
}

/// The components of `path` below `root`, when `path` is `root` or lies under it.
pub open spec fn relative_to(root: Seq<char>, path: Seq<char>) -> Option<Seq<Seq<char>>> {
    if is_absolute(root) == is_absolute(path) && components(root).is_prefix_of(components(path)) {
        Some(components(path).skip(components(root).len() as int))
    } else {
        None
    }
}

/// The components `cs` written with `/` between them.
pub open spec fn joined(cs: Seq<Seq<char>>) -> Seq<char>
    decreases cs.len(),
{
    if cs.len() == 0 {
        Seq::empty()
    } else if cs.len() == 1 {
        cs[0]
    } else {
        joined(cs.drop_last()) + seq!['/'] + cs.last()
    }
}

/// The absolute path that a template at relative components `rel` is written to.
pub open spec fn mirrored(rel: Seq<Seq<char>>) -> Seq<char> {
    seq!['/'] + joined(rel)
}

pub open spec fn views(v: Seq<Vec<char>>) -> Seq<Seq<char>> {
    v.map_values(|c: Vec<char>| c@)
}

/// Adds the piece `cur` to `done`, unless it is empty or `.`.
fn flush_into(done: &mut Vec<Vec<char>>, cur: Vec<char>)
    ensures
        views(final(done)@) == flush(views(old(done)@), cur@),
{
    if cur.len() == 0 || (cur.len() == 1 && cur[0] == '.') {
        assert(cur@.len() == 0 || cur@ =~= seq!['.']);
    } else {
        assert(cur@ != seq!['.']) by {
            if cur@ == seq!['.'] {
                assert(cur@[0] == '.');
            }
        }
        let ghost before = done@;
        done.push(cur);
        assert(views(done@) =~= views(before).push(cur@));
    }
}

/// The components of the path with characters `s`.
fn components_of(s: &Vec<char>) -> (r: Vec<Vec<char>>)
    ensures
        views(r@) == components(s@),
{
    let mut done: Vec<Vec<char>> = Vec::new();
    if s.len() > 0 && s[0] == '.' && (s.len() == 1 || s[1] == '/') {
        let dot = vec!['.'];
        assert(dot@ =~= seq!['.']);
        done.push(dot);
        assert(views(done@) =~= seq![seq!['.']]);
    }
    let ghost lead = views(done@);
    assert(lead == if starts_at_current(s@) {
        seq![seq!['.']]
    } else {
        Seq::<Seq<char>>::empty()
    }) by {
        if starts_at_current(s@) {
            assert(views(done@) =~= seq![seq!['.']]);
        } else {
            assert(views(done@) =~= Seq::<Seq<char>>::empty());
        }
    }
    let mut cur: Vec<char> = Vec::new();
    let mut i: usize = 0;
    while i < s.len()
        invariant
            i <= s.len(),
            views(done@) == lead + scan(s@, i as int).0,
            cur@ == scan(s@, i as int).1,
        decreases s.len() - i,
    {
        if s[i] == '/' {
            let ghost before = views(done@);
            flush_into(&mut done, cur);
            cur = Vec::new();
            assert(views(done@) =~= lead + flush(scan(s@, i as int).0, scan(s@, i as int).1));
        } else {
            cur.push(s[i]);
        }
        i = i + 1;
    }
    flush_into(&mut done, cur);
    assert(views(done@) =~= lead + flush(scan(s@, s@.len() as int).0, scan(s@, s@.len() as int).1));
    done
}

/// Whether two character vectors are equal.
fn same_chars(a: &Vec<char>, b: &Vec<char>) -> (r: bool)
    ensures
        r == (a@ == b@),
{
    if a.len() != b.len() {
        return false;
    }
    let mut i: usize = 0;
    while i < a.len()
        invariant
            i <= a.len(),
            a.len() == b.len(),
            forall|k: int| 0 <= k < i ==> a@[k] == b@[k],
        decreases a.len() - i,
    {
        if a[i] != b[i] {
            return false;
        }
        i = i + 1;
    }
    assert(a@ =~= b@);
    true
}

/// Whether the components `p` start the components `c`.
fn starts_components(p: &Vec<Vec<char>>, c: &Vec<Vec<char>>) -> (r: bool)
    ensures
        r == views(p@).is_prefix_of(views(c@)),
{
    if p.len() > c.len() {
        return false;
    }
    let mut i: usize = 0;
    while i < p.len()
        invariant
            i <= p.len(),
            p.len() <= c.len(),
            forall|k: int| 0 <= k < i ==> views(p@)[k] == views(c@)[k],
        decreases p.len() - i,
    {
        if !same_chars(&p[i], &c[i]) {
            assert(views(p@)[i as int] != views(c@)[i as int]);
            return false;
        }
        i = i + 1;
    }
    true
}

/// The target path of the template file at `template`, for the tree rooted at
/// `root`: `/` followed by the template's components below the root. A
/// template that is neither the root nor under it is an error.
pub fn reconfigure_target(root: &str, template: &str) -> (r: Result<String, OutsideRoot>)
    ensures
        match relative_to(root@, template@) {
            Some(rel) => r matches Ok(t) && t@ == mirrored(rel),
            None => r matches Err(e) && e.root@ == root@ && e.path@ == template@,
        },
{
    let rc = chars_of(root);
    let tc = chars_of(template);
    let root_abs = rc.len() > 0 && rc[0] == '/';
    let template_abs = tc.len() > 0 && tc[0] == '/';
    let rcs = components_of(&rc);
    let tcs = components_of(&tc);
    if root_abs != template_abs || !starts_components(&rcs, &tcs) {
        return Err(OutsideRoot { root: root.to_owned(), path: template.to_owned() });
    }
    let start = rcs.len();
    let ghost rel = views(tcs@).skip(start as int);
    let mut out: Vec<char> = vec!['/'];
    let mut k: usize = start;
    while k < tcs.len()
        invariant
            start <= k <= tcs.len(),
            out@ == seq!['/'] + joined(views(tcs@).subrange(start as int, k as int)),
        decreases tcs.len() - k,
    {
        let ghost prev = views(tcs@).subrange(start as int, k as int);
        let ghost next = views(tcs@).subrange(start as int, k + 1);
        assert(next.drop_last() =~= prev);
        if k > start {
            out.push('/');
        }
        let piece = &tcs[k];
        let ghost base = out@;
        let mut j: usize = 0;
        while j < piece.len()
            invariant
                j <= piece.len(),
                out@ == base + piece@.subrange(0, j as int),
            decreases piece.len() - j,
        {
            out.push(piece[j]);
            j = j + 1;
            assert(out@ =~= base + piece@.subrange(0, j as int));
        }
        assert(piece@.subrange(0, piece@.len() as int) =~= piece@);
        assert(next.last() == piece@);
        if k > start {
            assert(out@ =~= seq!['/'] + joined(next));
        } else {
            assert(out@ =~= seq!['/'] + joined(next));
        }
        k = k + 1;
    }
    assert(views(tcs@).subrange(start as int, tcs.len() as int) =~= rel);
    Ok(string_of(&out))
}

} // verus!

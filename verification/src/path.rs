use crate::text::str_eq;
use vstd::prelude::*;

verus! {

/// The path that joining `p` onto `base` gives, with `/` as the separator:
/// an absolute `p` replaces `base`; otherwise `p` is appended after a
/// separator, which is added only where `base` is non-empty and does not
/// already end with one (the behaviour of `Path::join` on Unix).
pub open spec fn path_join(base: Seq<char>, p: Seq<char>) -> Seq<char> {
    if p.len() > 0 && p[0] == '/' {
        p
    } else if base.len() == 0 || base.last() == '/' {
        base + p
    } else {
        base + seq!['/'] + p
    }
}

/// Joins `p` onto the path `base` (see `path_join`).
pub fn join_path(base: &str, p: &str) -> (r: String)
    ensures
        r@ == path_join(base@, p@),
{
    let plen = p.unicode_len();
    if plen > 0 && p.get_char(0) == '/' {
        return String::from_str(p);
    }
    let blen = base.unicode_len();
    let mut r = String::from_str(base);
    if blen > 0 && base.get_char(blen - 1) != '/' {
        r.append("/");
        proof {
            reveal_strlit("/");
        }
    }
    r.append(p);
    r
}

/// The pieces of `s` between separators, continuing the piece `cur`: splitting
/// on every `/`, empty pieces included.
pub open spec fn split_from(s: Seq<char>, cur: Seq<char>) -> Seq<Seq<char>>
    decreases s.len(),
{
    if s.len() == 0 {
        seq![cur]
    } else if s[0] == '/' {
        seq![cur] + split_from(s.drop_first(), seq![])
    } else {
        split_from(s.drop_first(), cur.push(s[0]))
    }
}

/// A piece that names a directory or file: neither empty nor `.`.
pub open spec fn is_named(seg: Seq<char>) -> bool {
    seg.len() > 0 && seg != seq!['.']
}

/// The pieces of `segs` that name something, in order.
pub open spec fn named_segments(segs: Seq<Seq<char>>) -> Seq<Seq<char>>
    decreases segs.len(),
{
    if segs.len() == 0 {
        seq![]
    } else {
        let rest = named_segments(segs.subrange(0, segs.len() - 1));
        if is_named(segs[segs.len() - 1]) {
            rest.push(segs[segs.len() - 1])
        } else {
            rest
        }
    }
}

/// The components of the path `s`, as `Path::components` gives them on Unix:
/// a root (written `/`) where `s` starts with a separator; a leading `.` where
/// a relative path starts with the piece `.`; then every piece that names
/// something. Empty pieces and other `.` pieces are left out.
pub open spec fn components(s: Seq<char>) -> Seq<Seq<char>> {
    let segs = split_from(s, seq![]);
    let rooted = s.len() > 0 && s[0] == '/';
    let root: Seq<Seq<char>> = if rooted { seq![seq!['/']] } else { seq![] };
    let cur: Seq<Seq<char>> = if !rooted && segs[0] == seq!['.'] { seq![seq!['.']] } else { seq![] };
    root + cur + named_segments(segs)
}

/// The path `p` lies under `base`: the components of `base` are the first
/// components of `p` (the behaviour of `Path::starts_with`).
pub open spec fn path_starts_with(p: Seq<char>, base: Seq<char>) -> bool {
    let pc = components(p);
    let bc = components(base);
    bc.len() <= pc.len() && pc.subrange(0, bc.len() as int) == bc
}

/// `split_from` never gives an empty list.
proof fn lemma_split_nonempty(s: Seq<char>, cur: Seq<char>)
    ensures
        split_from(s, cur).len() > 0,
        s.len() == 0 ==> split_from(s, cur) == seq![cur],
    decreases s.len(),
{
    if s.len() > 0 {
        if s[0] == '/' {
            lemma_split_nonempty(s.drop_first(), seq![]);
        } else {
            lemma_split_nonempty(s.drop_first(), cur.push(s[0]));
        }
    }
}

/// Splitting text that holds a separator splits the parts before and after it.
proof fn lemma_split_concat(a: Seq<char>, b: Seq<char>, cur: Seq<char>)
    ensures
        split_from(a + seq!['/'] + b, cur) == split_from(a, cur) + split_from(b, seq![]),
    decreases a.len(),
{
    let s = a + seq!['/'] + b;
    if a.len() == 0 {
        assert(s[0] == '/');
        assert(s.drop_first() =~= b);
        lemma_split_nonempty(a, cur);
    } else {
        assert(s[0] == a[0]);
        assert(s.drop_first() =~= a.drop_first() + seq!['/'] + b);
        if a[0] == '/' {
            lemma_split_concat(a.drop_first(), b, seq![]);
            assert(split_from(s, cur) == seq![cur] + split_from(a.drop_first() + seq!['/'] + b, seq![]));
            assert(seq![cur] + (split_from(a.drop_first(), seq![]) + split_from(b, seq![])) =~= (seq![cur]
                + split_from(a.drop_first(), seq![])) + split_from(b, seq![]));
        } else {
            lemma_split_concat(a.drop_first(), b, cur.push(a[0]));
        }
    }
}

/// Keeping the named pieces of two lists one after the other keeps those of each.
proof fn lemma_named_concat(x: Seq<Seq<char>>, y: Seq<Seq<char>>)
    ensures
        named_segments(x + y) == named_segments(x) + named_segments(y),
    decreases y.len(),
{
    if y.len() == 0 {
        assert(x + y =~= x);
        assert(named_segments(x) + named_segments(y) =~= named_segments(x));
    } else {
        let z = x + y;
        let y0 = y.subrange(0, y.len() - 1);
        assert(z.subrange(0, z.len() - 1) =~= x + y0);
        assert(z[z.len() - 1] == y[y.len() - 1]);
        lemma_named_concat(x, y0);
        if is_named(y[y.len() - 1]) {
            assert(named_segments(x) + named_segments(y0).push(y[y.len() - 1]) =~= (named_segments(x)
                + named_segments(y0)).push(y[y.len() - 1]));
        }
    }
}

/// A path joined onto `base` with a path that does not start at the root
/// lies under `base`: the components of `base` come first in those of the
/// joined path.
pub proof fn lemma_join_lies_under(base: Seq<char>, p: Seq<char>)
    requires
        !(p.len() > 0 && p[0] == '/'),
    ensures
        path_starts_with(path_join(base, p), base),
{
    let j = path_join(base, p);
    let bc = components(base);
    let jc = components(j);
    if base.len() == 0 {
        lemma_split_nonempty(base, seq![]);
        assert(split_from(base, seq![]) == seq![Seq::<char>::empty()]);
        let segs = split_from(base, seq![]);
        assert(segs.subrange(0, 0) =~= Seq::<Seq<char>>::empty());
        assert(named_segments(segs.subrange(0, 0)) == Seq::<Seq<char>>::empty());
        assert(named_segments(segs) =~= Seq::<Seq<char>>::empty());
        assert(bc =~= Seq::<Seq<char>>::empty());
        assert(jc.subrange(0, 0) =~= bc);
    } else {
        // `a` is the part of `base` before the separator that the join puts
        // (or finds) between it and `p`.
        let a = if base.last() == '/' { base.subrange(0, base.len() - 1) } else { base };
        assert(j =~= a + seq!['/'] + p);
        assert(base.last() == '/' ==> base =~= a + seq!['/'] + Seq::<char>::empty());
        lemma_split_concat(a, p, seq![]);
        lemma_split_concat(a, Seq::<char>::empty(), seq![]);
        lemma_split_nonempty(a, seq![]);
        lemma_split_nonempty(Seq::<char>::empty(), seq![]);
        let sa = split_from(a, seq![]);
        let sp = split_from(p, seq![]);
        let sb = split_from(base, seq![]);
        let sj = split_from(j, seq![]);
        assert(sj == sa + sp);
        let tail: Seq<Seq<char>> = seq![Seq::<char>::empty()];
        assert(named_segments(tail.subrange(0, 0)) == Seq::<Seq<char>>::empty());
        assert(named_segments(tail) =~= Seq::<Seq<char>>::empty());
        if base.last() == '/' {
            assert(sb == sa + tail);
            lemma_named_concat(sa, tail);
            assert(named_segments(sb) =~= named_segments(sa));
            assert(sb[0] == sa[0]);
        } else {
            assert(sa == sb);
        }
        lemma_named_concat(sa, sp);
        assert(sj[0] == sa[0]);
        assert(j[0] == base[0]);
        let root: Seq<Seq<char>> = if base[0] == '/' { seq![seq!['/']] } else { seq![] };
        let cur: Seq<Seq<char>> = if !(base[0] == '/') && sa[0] == seq!['.'] { seq![seq!['.']] } else { seq![] };
        assert(bc =~= root + cur + named_segments(sa));
        assert(jc =~= root + cur + named_segments(sa) + named_segments(sp));
        assert(jc.subrange(0, bc.len() as int) =~= bc);
    }
}

/// Lying under a path is transitive.
pub proof fn lemma_starts_with_trans(a: Seq<char>, b: Seq<char>, c: Seq<char>)
    requires
        path_starts_with(a, b),
        path_starts_with(b, c),
    ensures
        path_starts_with(a, c),
{
    let ac = components(a);
    let bc = components(b);
    let cc = components(c);
    assert(ac.subrange(0, cc.len() as int) =~= ac.subrange(0, bc.len() as int).subrange(0, cc.len() as int));
}

/// `p` starts at the root.
pub open spec fn is_absolute(p: Seq<char>) -> bool {
    p.len() > 0 && p[0] == '/'
}

/// The pieces of `s` between separators (see `split_from`).
fn split_pieces(s: &str) -> (r: Vec<String>)
    ensures
        r.deep_view() == split_from(s@, seq![]),
{
    let n = s.unicode_len();
    let mut r: Vec<String> = Vec::new();
    let mut start: usize = 0;
    let mut i: usize = 0;
    assert(s@.subrange(0, n as int) =~= s@);
    assert(s@.subrange(0, 0) =~= Seq::<char>::empty());
    while i < n
        invariant
            n == s@.len(),
            start <= i <= n,
            r.deep_view() + split_from(s@.subrange(i as int, n as int), s@.subrange(start as int, i as int))
                == split_from(s@, seq![]),
        decreases n - i,
    {
        let c = s.get_char(i);
        let ghost t = s@.subrange(i as int, n as int);
        let ghost cur = s@.subrange(start as int, i as int);
        assert(t.drop_first() =~= s@.subrange(i + 1, n as int));
        if c == '/' {
            let ghost before = r.deep_view();
            r.push(String::from_str(s.substring_char(start, i)));
            assert(r.deep_view() =~= before + seq![cur]);
            assert(s@.subrange(i + 1, i + 1) =~= Seq::<char>::empty());
            i = i + 1;
            start = i;
        } else {
            assert(cur.push(c) =~= s@.subrange(start as int, i + 1));
            i = i + 1;
        }
    }
    let ghost before = r.deep_view();
    r.push(String::from_str(s.substring_char(start, n)));
    assert(s@.subrange(n as int, n as int) =~= Seq::<char>::empty());
    assert(r.deep_view() =~= before + seq![s@.subrange(start as int, n as int)]);
    r
}

/// The components of the path `s` (see `components`).
pub fn path_components(s: &str) -> (r: Vec<String>)
    ensures
        r.deep_view() == components(s@),
{
    let segs = split_pieces(s);
    proof {
        lemma_split_nonempty(s@, seq![]);
        reveal_strlit("/");
        reveal_strlit(".");
        assert("/"@ =~= seq!['/']);
        assert("."@ =~= seq!['.']);
    }
    let n = s.unicode_len();
    let rooted = n > 0 && s.get_char(0) == '/';
    let mut r: Vec<String> = Vec::new();
    if rooted {
        r.push(String::from_str("/"));
    } else if str_is_dot(segs[0].as_str()) {
        r.push(String::from_str("."));
    }
    let ghost prefix = r.deep_view();
    let mut i: usize = 0;
    while i < segs.len()
        invariant
            i <= segs@.len(),
            r.deep_view() == prefix + named_segments(segs.deep_view().subrange(0, i as int)),
        decreases segs.len() - i,
    {
        let ghost before = r.deep_view();
        let ghost sub = segs.deep_view().subrange(0, i + 1);
        assert(sub.subrange(0, sub.len() - 1) =~= segs.deep_view().subrange(0, i as int));
        if segs[i].as_str().unicode_len() > 0 && !str_is_dot(segs[i].as_str()) {
            r.push(segs[i].clone());
            assert(r.deep_view() =~= before.push(segs[i as int]@));
        }
        i = i + 1;
    }
    assert(segs.deep_view().subrange(0, i as int) =~= segs.deep_view());
    let ghost pre = if rooted { seq![seq!['/']] } else if segs.deep_view()[0] == seq!['.'] { seq![seq!['.']] } else { Seq::<Seq<char>>::empty() };
    assert(prefix =~= pre);
    r
}

/// Whether `s` is exactly `.`.
fn str_is_dot(s: &str) -> (b: bool)
    ensures
        b == (s@ == seq!['.']),
{
    if s.unicode_len() != 1 {
        return false;
    }
    let c = s.get_char(0);
    proof {
        if c == '.' {
            assert(s@ =~= seq!['.']);
        }
    }
    c == '.'
}

/// Whether the path `p` lies under `base` (see `path_starts_with`).
pub fn starts_with_path(p: &str, base: &str) -> (b: bool)
    ensures
        b == path_starts_with(p@, base@),
{
    let pc = path_components(p);
    let bc = path_components(base);
    if bc.len() > pc.len() {
        return false;
    }
    let mut i: usize = 0;
    while i < bc.len()
        invariant
            pc.deep_view() == components(p@),
            bc.deep_view() == components(base@),
            bc.len() <= pc.len(),
            i <= bc.len(),
            forall|k: int| 0 <= k < i ==> pc.deep_view()[k] == bc.deep_view()[k],
        decreases bc.len() - i,
    {
        assert(pc.deep_view()[i as int] == pc@[i as int]@);
        assert(bc.deep_view()[i as int] == bc@[i as int]@);
        if !str_eq(pc[i].as_str(), bc[i].as_str()) {
            assert(pc.deep_view().subrange(0, bc.len() as int)[i as int] != bc.deep_view()[i as int]);
            return false;
        }
        i = i + 1;
    }
    assert(pc.deep_view().subrange(0, bc.len() as int) =~= bc.deep_view());
    true
}

} // verus!

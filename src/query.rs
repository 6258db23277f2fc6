use vstd::prelude::*;

verus! {

/// The `&`-separated parts of a query string, in order, empty parts included.
pub open spec fn segments(q: Seq<char>) -> Seq<Seq<char>>
    decreases q.len(),
{
    if q.len() == 0 {
        seq![Seq::empty()]
    } else {
        let s = segments(q.drop_last());
        if q.last() == '&' {
            s.push(Seq::empty())
        } else {
            s.update(s.len() - 1, s.last().push(q.last()))
        }
    }
}

/// The name of a `name=value` part: what precedes its first `=`.
pub open spec fn key_part(seg: Seq<char>) -> Seq<char>
    decreases seg.len(),
{
    if seg.len() == 0 || seg[0] == '=' {
        Seq::empty()
    } else {
        seq![seg[0]] + key_part(seg.drop_first())
    }
}

/// The value of a `name=value` part: what follows its first `=`, or nothing.
pub open spec fn value_part(seg: Seq<char>) -> Seq<char>
    decreases seg.len(),
{
    if seg.len() == 0 {
        Seq::empty()
    } else if seg[0] == '=' {
        seg.drop_first()
    } else {
        value_part(seg.drop_first())
    }
}

/// The value of the last non-empty part of `segs` named `key`.
pub open spec fn last_value(segs: Seq<Seq<char>>, key: Seq<char>) -> Option<Seq<char>>
    decreases segs.len(),
{
    if segs.len() == 0 {
        None
    } else if segs.last().len() > 0 && key_part(segs.last()) == key {
        Some(value_part(segs.last()))
    } else {
        last_value(segs.drop_last(), key)
    }
}

/// The value of parameter `key` in query string `q`; where it is given more
/// than once, the last one counts. Values are taken as written.
pub open spec fn param_of(q: Seq<char>, key: Seq<char>) -> Option<Seq<char>> {
    last_value(segments(q), key)
}

/// The text of each string, in order.
pub open spec fn texts(v: Seq<String>) -> Seq<Seq<char>> {
    v.map_values(|s: String| s@)
}

/// Splits a query string at each `&`.
fn split_query(q: &str) -> (r: Vec<String>)
    ensures
        texts(r@) == segments(q@),
{
    let n = q.unicode_len();
    let mut done: Vec<String> = Vec::new();
    let mut start: usize = 0;
    let mut i: usize = 0;
    assert(q@.take(0) =~= Seq::<char>::empty());
    assert(texts(done@).push(q@.subrange(0, 0)) =~= seq![Seq::<char>::empty()]);
    while i < n
        invariant
            n == q@.len(),
            start <= i <= n,
            texts(done@).push(q@.subrange(start as int, i as int)) == segments(
                q@.take(i as int),
            ),
        decreases n - i,
    {
        let c = q.get_char(i);
        let ghost prev = texts(done@).push(q@.subrange(start as int, i as int));
        proof {
            assert(q@.take(i + 1).drop_last() =~= q@.take(i as int));
        }
        let ghost old_done = done@;
        if c == '&' {
            let part = q.substring_char(start, i);
            done.push(part.to_owned());
            assert(texts(done@) =~= texts(old_done).push(q@.subrange(start as int, i as int)));
            start = i + 1;
            assert(q@.subrange(start as int, i + 1) =~= Seq::<char>::empty());
            assert(texts(done@).push(q@.subrange(start as int, i + 1)) =~= prev.push(
                Seq::empty(),
            ));
        } else {
            assert(q@.subrange(start as int, i + 1) =~= q@.subrange(start as int, i as int).push(c));
            assert(texts(done@).push(q@.subrange(start as int, i + 1)) =~= prev.update(
                prev.len() - 1,
                prev.last().push(c),
            ));
        }
        i = i + 1;
    }
    let last = q.substring_char(start, n);
    done.push(last.to_owned());
    assert(q@.take(n as int) =~= q@);
    assert(texts(done@) =~= segments(q@));
    done
}

/// Splits a `name=value` part at its first `=`.
fn split_pair(seg: &str) -> (r: (String, String))
    ensures
        r.0@ == key_part(seg@),
        r.1@ == value_part(seg@),
{
    let n = seg.unicode_len();
    let mut i: usize = 0;
    assert(seg@.skip(0) =~= seg@);
    assert(seg@.take(0) + key_part(seg@) =~= key_part(seg@));
    while i < n
        invariant
            n == seg@.len(),
            i <= n,
            forall|j: int| 0 <= j < i ==> seg@[j] != '=',
            key_part(seg@) == seg@.take(i as int) + key_part(seg@.skip(i as int)),
            value_part(seg@) == value_part(seg@.skip(i as int)),
        decreases n - i,
    {
        proof {
            assert(seg@.skip(i as int).drop_first() =~= seg@.skip(i + 1));
            assert(seg@.skip(i as int)[0] == seg@[i as int]);
        }
        if seg.get_char(i) == '=' {
            let key = seg.substring_char(0, i);
            let value = seg.substring_char(i + 1, n);
            assert(key@ =~= seg@.take(i as int) + Seq::<char>::empty());
            assert(value@ =~= seg@.skip(i as int).drop_first());
            return (key.to_owned(), value.to_owned());
        }
        proof {
            assert(seg@.take(i as int) + (seq![seg@[i as int]] + key_part(seg@.skip(i + 1))) =~= seg@.take(
                i + 1,
            ) + key_part(seg@.skip(i + 1)));
        }
        i = i + 1;
    }
    let key = seg.to_owned();
    assert(seg@.skip(n as int) =~= Seq::<char>::empty());
    assert(key@ =~= seg@.take(n as int) + Seq::<char>::empty());
    (key, String::new())
}

/// The value of parameter `key` in query string `q` (`a=1&b=2`); where it is
/// given more than once, the last one counts.
pub fn param(q: &str, key: &str) -> (r: Option<String>)
    ensures
        match r {
            Some(v) => param_of(q@, key@) == Some(v@),
            None => param_of(q@, key@) is None,
        },
{
    let segs = split_query(q);
    let ghost all = texts(segs@);
    let wanted = String::from_str(key);
    let mut i: usize = segs.len();
    assert(all.take(i as int) =~= all);
    while i > 0
        invariant
            i <= segs@.len(),
            all == texts(segs@),
            all == segments(q@),
            wanted@ == key@,
            last_value(all, key@) == last_value(all.take(i as int), key@),
        decreases i,
    {
        let seg = &segs[i - 1];
        proof {
            assert(all.take(i as int).drop_last() =~= all.take(i - 1));
            assert(all.take(i as int).last() == seg@);
        }
        if seg.unicode_len() > 0 {
            let (k, v) = split_pair(seg.as_str());
            if k.eq(&wanted) {
                return Some(v);
            }
        }
        i = i - 1;
    }
    None
}

/// The value of parameter `key` in `q`, or an empty string where it is absent.
pub open spec fn param_or_empty(q: Seq<char>, key: Seq<char>) -> Seq<char> {
    match param_of(q, key) {
        Some(v) => v,
        None => Seq::empty(),
    }
}

} // verus!

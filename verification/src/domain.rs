//! From a fully-qualified DNS name to the domain of the zone that holds it.

use vstd::prelude::*;
use vstd::string::*;

verus! {

/// The labels of a name: the runs of characters between its dots, in order.
/// A name without a dot is one label; a dot at either end borders an empty
/// label.
pub open spec fn labels(name: Seq<char>) -> Seq<Seq<char>>
    decreases name.len(),
{
    if name.len() == 0 {
        seq![Seq::<char>::empty()]
    } else {
        let before = labels(name.drop_last());
        if name.last() == '.' {
            before.push(Seq::<char>::empty())
        } else {
            before.drop_last().push(before.last().push(name.last()))
        }
    }
}

/// The root domain of a name: its last two labels joined by a dot, or the
/// whole name where it has fewer than two labels.
pub open spec fn root_domain(name: Seq<char>) -> Seq<char> {
    let parts = labels(name);
    if parts.len() >= 2 {
        parts[parts.len() - 2] + seq!['.'] + parts[parts.len() - 1]
    } else {
        name
    }
}

/// Where the second-to-last label starts: behind the dot before the last
/// one, or at the front where there is no such dot.
spec fn tail_start(prev_dot: Option<usize>) -> int {
    match prev_dot {
        Some(p) => p + 1,
        None => 0,
    }
}

/// What a scan of the first `upto` characters of `name` knows: where the
/// last two dots of that prefix lie, and how they cut its labels.
spec fn scanned(name: Seq<char>, upto: int, last_dot: Option<usize>, prev_dot: Option<usize>) -> bool {
    let prefix = name.take(upto);
    let parts = labels(prefix);
    match last_dot {
        None => prev_dot is None && parts.len() == 1 && parts[0] == prefix,
        Some(d) => {
            &&& tail_start(prev_dot) <= d < upto
            &&& name[d as int] == '.'
            &&& parts.len() >= 2
            &&& (prev_dot is None <==> parts.len() == 2)
            &&& parts[parts.len() - 1] == prefix.skip(d + 1)
            &&& parts[parts.len() - 2] == prefix.subrange(tail_start(prev_dot), d as int)
        },
    }
}

/// One more character scanned: a dot becomes the last dot, and any other
/// character lengthens the last label.
proof fn lemma_scan_step(name: Seq<char>, upto: int, last_dot: Option<usize>, prev_dot: Option<usize>)
    requires
        0 <= upto < name.len(),
        upto < usize::MAX,
        scanned(name, upto, last_dot, prev_dot),
    ensures
        name[upto] == '.' ==> scanned(name, upto + 1, Some(upto as usize), last_dot),
        name[upto] != '.' ==> scanned(name, upto + 1, last_dot, prev_dot),
{
    let prefix = name.take(upto);
    let next = name.take(upto + 1);
    assert(next.drop_last() =~= prefix);
    assert(next.last() == name[upto]);
    let parts = labels(prefix);
    let grown = labels(next);
    if name[upto] == '.' {
        assert(grown == parts.push(Seq::<char>::empty()));
        assert(grown[grown.len() - 1] =~= next.skip(upto + 1));
        match last_dot {
            None => {
                assert(grown[grown.len() - 2] =~= next.subrange(0, upto));
            },
            Some(d) => {
                assert(grown[grown.len() - 2] =~= next.subrange(d + 1, upto));
            },
        }
    } else {
        assert(grown == parts.drop_last().push(parts.last().push(name[upto])));
        match last_dot {
            None => {
                assert(grown[0] =~= next);
            },
            Some(d) => {
                assert(grown[grown.len() - 1] =~= next.skip(d + 1));
                assert(grown[grown.len() - 2] =~= next.subrange(tail_start(prev_dot), d as int));
            },
        }
    }
}

/// With the whole name scanned, its root domain starts behind the dot
/// before the last one.
proof fn lemma_scan_done(name: Seq<char>, last_dot: Option<usize>, prev_dot: Option<usize>)
    requires
        scanned(name, name.len() as int, last_dot, prev_dot),
    ensures
        root_domain(name) == match last_dot {
            Some(_) => name.skip(tail_start(prev_dot)),
            None => name,
        },
{
    assert(name.take(name.len() as int) =~= name);
    if let Some(d) = last_dot {
        let start = tail_start(prev_dot);
        assert(name.subrange(start, d as int) + seq!['.'] + name.skip(d + 1) =~= name.skip(start));
    }
}

/// Derives the registrable root domain of a DNS name: the last two of its
/// dot-separated labels, or the name itself where it has no dot. The labels
/// are taken as they stand; nothing checks that they are legal.
pub fn extract_root_domain(dns_name: &str) -> (domain: String)
    ensures
        domain@ == root_domain(dns_name@),
{
    let len: usize = dns_name.unicode_len();
    let mut last_dot: Option<usize> = None;
    let mut prev_dot: Option<usize> = None;
    let mut at: usize = 0;
    proof {
        assert(dns_name@.take(0) =~= Seq::<char>::empty());
    }
    for c in it: dns_name.chars()
        invariant
            len == dns_name@.len(),
            it.seq() == dns_name@,
            at == it.index(),
            scanned(dns_name@, at as int, last_dot, prev_dot),
    {
        proof {
            lemma_scan_step(dns_name@, at as int, last_dot, prev_dot);
        }
        if c == '.' {
            prev_dot = last_dot;
            last_dot = Some(at);
        }
        at = at + 1;
    }
    proof {
        lemma_scan_done(dns_name@, last_dot, prev_dot);
    }
    let start: usize = match (last_dot, prev_dot) {
        (Some(_), Some(p)) => p + 1,
        _ => 0,
    };
    proof {
        assert(dns_name@.skip(0) =~= dns_name@);
        assert(dns_name@.subrange(start as int, len as int) =~= dns_name@.skip(start as int));
    }
    dns_name.substring_char(start, len).to_owned()
}

/// Labels joined by dots, one dot between each two.
pub open spec fn joined(parts: Seq<Seq<char>>) -> Seq<char>
    decreases parts.len(),
{
    if parts.len() == 0 {
        Seq::<char>::empty()
    } else if parts.len() == 1 {
        parts[0]
    } else {
        joined(parts.drop_last()) + seq!['.'] + parts.last()
    }
}

/// Whether a text holds no dot.
pub open spec fn dot_free(text: Seq<char>) -> bool {
    forall|i: int| 0 <= i < text.len() ==> text[i] != '.'
}

/// Appending a text without dots to a name lengthens its last label.
proof fn lemma_labels_append(name: Seq<char>, tail: Seq<char>)
    requires
        dot_free(tail),
    ensures
        labels(name).len() >= 1,
        labels(name + tail) == labels(name).drop_last().push(labels(name).last() + tail),
    decreases tail.len(),
{
    lemma_labels_nonempty(name);
    if tail.len() == 0 {
        assert(name + tail =~= name);
        assert(labels(name).last() + tail =~= labels(name).last());
        assert(labels(name).drop_last().push(labels(name).last()) =~= labels(name));
    } else {
        let whole = name + tail;
        assert(whole.drop_last() =~= name + tail.drop_last());
        assert(whole.last() == tail.last());
        lemma_labels_append(name, tail.drop_last());
        let before = labels(name + tail.drop_last());
        assert(before.last() == labels(name).last() + tail.drop_last());
        assert(before.last().push(tail.last()) =~= labels(name).last() + tail);
        assert(before.drop_last() =~= labels(name).drop_last());
    }
}

/// Every name has a label.
proof fn lemma_labels_nonempty(name: Seq<char>)
    ensures
        labels(name).len() >= 1,
    decreases name.len(),
{
    if name.len() > 0 {
        lemma_labels_nonempty(name.drop_last());
    }
}

/// The labels of a name are what stands between its dots: none of them
/// holds a dot, there is at least one, and joined by dots they give the
/// name back.
pub proof fn lemma_labels_split_at_dots(name: Seq<char>)
    ensures
        labels(name).len() >= 1,
        forall|i: int| 0 <= i < labels(name).len() ==> dot_free(#[trigger] labels(name)[i]),
        joined(labels(name)) == name,
    decreases name.len(),
{
    if name.len() == 0 {
        assert(joined(labels(name)) =~= name);
    } else {
        let before = labels(name.drop_last());
        lemma_labels_split_at_dots(name.drop_last());
        if name.last() == '.' {
            let parts = before.push(Seq::<char>::empty());
            assert(parts.drop_last() =~= before);
            assert(joined(parts) =~= name);
        } else {
            let parts = before.drop_last().push(before.last().push(name.last()));
            assert(parts.drop_last() =~= before.drop_last());
            if before.len() == 1 {
                assert(joined(parts) =~= name);
            } else {
                assert(joined(before) == joined(before.drop_last()) + seq!['.'] + before.last());
                assert(joined(parts) == joined(parts.drop_last()) + seq!['.'] + parts.last());
                assert(name =~= name.drop_last().push(name.last()));
                assert(joined(parts) =~= name.drop_last().push(name.last()));
            }
        }
    }
}

/// Joining labels by dots and splitting again gives the same labels.
pub proof fn lemma_labels_of_joined(parts: Seq<Seq<char>>)
    requires
        parts.len() >= 1,
        forall|i: int| 0 <= i < parts.len() ==> dot_free(#[trigger] parts[i]),
    ensures
        labels(joined(parts)) == parts,
    decreases parts.len(),
{
    if parts.len() == 1 {
        lemma_labels_append(Seq::<char>::empty(), parts[0]);
        assert(Seq::<char>::empty() + parts[0] =~= parts[0]);
        assert(labels(parts[0]) =~= parts);
    } else {
        let front = parts.drop_last();
        lemma_labels_of_joined(front);
        let stem = joined(front) + seq!['.'];
        assert(stem.drop_last() =~= joined(front));
        assert(labels(stem) == front.push(Seq::<char>::empty()));
        lemma_labels_append(stem, parts.last());
        assert(Seq::<char>::empty() + parts.last() =~= parts.last());
        assert(labels(joined(parts)) =~= parts);
    }
}

/// Of a name made of two or more labels, the root domain is exactly the
/// last two, joined by a dot; of a single label, it is that label.
pub proof fn lemma_root_domain_is_last_two_labels(parts: Seq<Seq<char>>)
    requires
        parts.len() >= 1,
        forall|i: int| 0 <= i < parts.len() ==> dot_free(#[trigger] parts[i]),
    ensures
        parts.len() >= 2 ==> root_domain(joined(parts)) == parts[parts.len() - 2] + seq!['.']
            + parts[parts.len() - 1],
        parts.len() == 1 ==> root_domain(joined(parts)) == parts[0],
{
    lemma_labels_of_joined(parts);
}

/// A name without a dot is its own root domain.
pub proof fn lemma_root_domain_without_dot(name: Seq<char>)
    requires
        dot_free(name),
    ensures
        root_domain(name) == name,
{
    lemma_labels_of_joined(seq![name]);
}

/// The root domain of a root domain is that domain again.
pub proof fn lemma_root_domain_is_its_own_root(name: Seq<char>)
    ensures
        root_domain(root_domain(name)) == root_domain(name),
{
    let parts = labels(name);
    lemma_labels_split_at_dots(name);
    if parts.len() >= 2 {
        let tail = seq![parts[parts.len() - 2], parts[parts.len() - 1]];
        assert(joined(tail) == root_domain(name)) by {
            reveal_with_fuel(joined, 2);
            assert(tail.drop_last() =~= seq![parts[parts.len() - 2]]);
        }
        lemma_root_domain_is_last_two_labels(tail);
    }
}

} // verus!

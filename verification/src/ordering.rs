//! Texts put in descending order, each kept once.

use vstd::prelude::*;

verus! {

/// Whether `a` stands before `b` in the order of texts: character by
/// character by code point, a proper prefix before what it is a prefix of.
pub open spec fn text_less(a: Seq<char>, b: Seq<char>) -> bool
    decreases a.len(),
{
    if b.len() == 0 {
        false
    } else if a.len() == 0 {
        true
    } else if a[0] != b[0] {
        a[0] < b[0]
    } else {
        text_less(a.skip(1), b.skip(1))
    }
}

/// `sorted` with `x` put in its place, unless it is there already.
pub open spec fn insert_descending(sorted: Seq<Seq<char>>, x: Seq<char>) -> Seq<Seq<char>>
    decreases sorted.len(),
{
    if sorted.len() == 0 {
        seq![x]
    } else if sorted[0] == x {
        sorted
    } else if text_less(sorted[0], x) {
        seq![x] + sorted
    } else {
        seq![sorted[0]] + insert_descending(sorted.skip(1), x)
    }
}

/// The first `n` of `items` in descending order, each kept once.
pub open spec fn descending_set(items: Seq<Seq<char>>, n: nat) -> Seq<Seq<char>>
    decreases n,
{
    if n == 0 {
        Seq::empty()
    } else {
        insert_descending(descending_set(items, (n - 1) as nat), items[n - 1])
    }
}

/// Every entry stands before the entry in front of it.
pub open spec fn strictly_descending(s: Seq<Seq<char>>) -> bool {
    forall|i: int| 0 <= i < s.len() - 1 ==> text_less(#[trigger] s[i + 1], s[i])
}

/// The contents of a list of texts.
pub open spec fn texts_view(texts: Seq<Vec<char>>) -> Seq<Seq<char>> {
    texts.map_values(|text: Vec<char>| text@)
}

/// No text stands before itself.
pub proof fn lemma_text_order_is_strict(a: Seq<char>)
    ensures
        !text_less(a, a),
    decreases a.len(),
{
    if a.len() > 0 {
        lemma_text_order_is_strict(a.skip(1));
    }
}

/// Of two texts, exactly one holds: the first stands before the second,
/// they are the same, or the second stands before the first.
pub proof fn lemma_text_order_is_total(a: Seq<char>, b: Seq<char>)
    ensures
        text_less(a, b) || a == b || text_less(b, a),
        !(text_less(a, b) && text_less(b, a)),
        a == b ==> !text_less(a, b),
    decreases a.len(),
{
    lemma_text_order_is_strict(a);
    if a.len() == 0 || b.len() == 0 {
        assert(a.len() == 0 && b.len() == 0 ==> a =~= b);
    } else if a[0] == b[0] {
        lemma_text_order_is_total(a.skip(1), b.skip(1));
        if a.skip(1) == b.skip(1) {
            assert(a =~= seq![a[0]] + a.skip(1));
            assert(b =~= seq![b[0]] + b.skip(1));
        }
    }
}

/// Inserting keeps what was there and adds the new text, nothing else.
pub proof fn lemma_insert_descending_contains(sorted: Seq<Seq<char>>, x: Seq<char>, y: Seq<char>)
    ensures
        insert_descending(sorted, x).contains(y) <==> (sorted.contains(y) || y == x),
    decreases sorted.len(),
{
    let r = insert_descending(sorted, x);
    if sorted.len() == 0 {
        assert(r[0] == x);
    } else if sorted[0] == x {
    } else if text_less(sorted[0], x) {
        assert(r[0] == x);
        assert(forall|i: int| 0 <= i < sorted.len() ==> r[i + 1] == sorted[i]);
        if sorted.contains(y) {
            let i = choose|i: int| 0 <= i < sorted.len() && sorted[i] == y;
            assert(r[i + 1] == y);
        }
    } else {
        let tail = insert_descending(sorted.skip(1), x);
        lemma_insert_descending_contains(sorted.skip(1), x, y);
        assert(r[0] == sorted[0]);
        assert(forall|i: int| 0 <= i < tail.len() ==> r[i + 1] == tail[i]);
        if tail.contains(y) {
            let i = choose|i: int| 0 <= i < tail.len() && tail[i] == y;
            assert(r[i + 1] == y);
        }
        if sorted.contains(y) {
            let i = choose|i: int| 0 <= i < sorted.len() && sorted[i] == y;
            if i > 0 {
                assert(sorted.skip(1)[i - 1] == y);
            }
        }
        if r.contains(y) {
            let i = choose|i: int| 0 <= i < r.len() && r[i] == y;
            if i > 0 {
                assert(tail[i - 1] == y);
                if sorted.skip(1).contains(y) {
                    let j = choose|j: int| 0 <= j < sorted.skip(1).len() && sorted.skip(1)[j] == y;
                    assert(sorted[j + 1] == y);
                }
            }
        }
    }
}

/// Inserting into a descending list leaves it descending.
pub proof fn lemma_insert_descending_sorted(sorted: Seq<Seq<char>>, x: Seq<char>)
    requires
        strictly_descending(sorted),
    ensures
        strictly_descending(insert_descending(sorted, x)),
        insert_descending(sorted, x).len() > 0,
        sorted.len() > 0 ==> insert_descending(sorted, x)[0] == sorted[0] || (insert_descending(
            sorted,
            x,
        )[0] == x && text_less(sorted[0], x)),
        sorted.len() == 0 ==> insert_descending(sorted, x)[0] == x,
    decreases sorted.len(),
{
    let r = insert_descending(sorted, x);
    if sorted.len() == 0 {
    } else if sorted[0] == x {
    } else if text_less(sorted[0], x) {
        assert forall|i: int| 0 <= i < r.len() - 1 implies text_less(#[trigger] r[i + 1], r[i]) by {
            if i > 0 {
                assert(text_less(sorted[(i - 1) + 1], sorted[i - 1]));
            }
        }
    } else {
        let rest = sorted.skip(1);
        let tail = insert_descending(rest, x);
        assert forall|i: int| 0 <= i < rest.len() - 1 implies text_less(
            #[trigger] rest[i + 1],
            rest[i],
        ) by {
            assert(text_less(sorted[(i + 1) + 1], sorted[i + 1]));
        }
        lemma_insert_descending_sorted(rest, x);
        lemma_text_order_is_total(sorted[0], x);
        assert forall|i: int| 0 <= i < r.len() - 1 implies text_less(#[trigger] r[i + 1], r[i]) by {
            if i == 0 {
                if rest.len() > 0 {
                    assert(text_less(sorted[0int + 1], sorted[0]));
                }
            } else {
                assert(text_less(tail[(i - 1) + 1], tail[i - 1]));
            }
        }
    }
}

/// The descending set of a list is descending.
pub proof fn lemma_descending_set_is_descending(items: Seq<Seq<char>>, n: nat)
    requires
        n <= items.len(),
    ensures
        strictly_descending(descending_set(items, n)),
    decreases n,
{
    if n > 0 {
        lemma_descending_set_is_descending(items, (n - 1) as nat);
        lemma_insert_descending_sorted(descending_set(items, (n - 1) as nat), items[n - 1]);
    }
}

/// The descending set of a list holds the texts of the list, and no others.
pub proof fn lemma_descending_set_contains(items: Seq<Seq<char>>, n: nat, y: Seq<char>)
    requires
        n <= items.len(),
    ensures
        descending_set(items, n).contains(y) <==> items.take(n as int).contains(y),
    decreases n,
{
    if n > 0 {
        let before = items.take(n - 1);
        let now = items.take(n as int);
        lemma_descending_set_contains(items, (n - 1) as nat, y);
        lemma_insert_descending_contains(descending_set(items, (n - 1) as nat), items[n - 1], y);
        assert(now[n - 1] == items[n - 1]);
        if before.contains(y) {
            let i = choose|i: int| 0 <= i < before.len() && before[i] == y;
            assert(now[i] == y);
        }
        if now.contains(y) {
            let i = choose|i: int| 0 <= i < now.len() && now[i] == y;
            if i < n - 1 {
                assert(before[i] == y);
            }
        }
    }
}

/// How two texts stand to each other.
#[derive(Clone, Copy, Debug, PartialEq, Eq)]
pub enum TextOrder {
    Before,
    Same,
    After,
}

/// Tells whether `a` stands before `b`, after it, or is the same text.
pub fn order_of(a: &[char], b: &[char]) -> (r: TextOrder)
    ensures
        r == TextOrder::Before <==> text_less(a@, b@),
        r == TextOrder::Same <==> a@ == b@,
        r == TextOrder::After <==> text_less(b@, a@),
{
    proof {
        lemma_text_order_is_total(a@, b@);
    }
    let mut i: usize = 0;
    assert(a@.skip(0) =~= a@);
    assert(b@.skip(0) =~= b@);
    while i < a.len() && i < b.len()
        invariant
            i <= a.len(),
            i <= b.len(),
            text_less(a@, b@) == text_less(a@.skip(i as int), b@.skip(i as int)),
            text_less(b@, a@) == text_less(b@.skip(i as int), a@.skip(i as int)),
        decreases a.len() - i,
    {
        assert(a@.skip(i as int).skip(1) =~= a@.skip(i + 1));
        assert(b@.skip(i as int).skip(1) =~= b@.skip(i + 1));
        if a[i] != b[i] {
            return if a[i] < b[i] {
                TextOrder::Before
            } else {
                TextOrder::After
            };
        }
        i += 1;
    }
    if i < b.len() {
        TextOrder::Before
    } else if i < a.len() {
        TextOrder::After
    } else {
        TextOrder::Same
    }
}

/// Puts `x` in its place in a descending list, unless it is there already.
pub fn insert_text(order: &mut Vec<Vec<char>>, x: Vec<char>)
    ensures
        texts_view(final(order)@) == insert_descending(texts_view(old(order)@), x@),
{
    let ghost all = texts_view(order@);
    let mut p: usize = 0;
    assert(all.take(0) + insert_descending(all.skip(0), x@) =~= insert_descending(all, x@)) by {
        assert(all.skip(0) =~= all);
    }
    let mut found = false;
    while p < order.len() && !found
        invariant
            p <= order.len(),
            found ==> p < order.len() && text_less(all[p as int], x@),
            order@ == old(order)@,
            all == texts_view(order@),
            insert_descending(all, x@) == all.take(p as int) + insert_descending(
                all.skip(p as int),
                x@,
            ),
        decreases order.len() - p + if found { 0int } else { 1int },
    {
        let ghost rest = all.skip(p as int);
        assert(rest[0] == order@[p as int]@);
        assert(rest.skip(1) =~= all.skip(p + 1));
        match order_of(order[p].as_slice(), x.as_slice()) {
            TextOrder::Same => {
                assert(all.take(p as int) + rest =~= all);
                return ;
            },
            TextOrder::Before => {
                found = true;
            },
            TextOrder::After => {
                proof {
                    lemma_text_order_is_total(rest[0], x@);
                    assert(all.take(p as int) + (seq![rest[0]] + insert_descending(
                        rest.skip(1),
                        x@,
                    )) =~= all.take(p + 1) + insert_descending(all.skip(p + 1), x@));
                }
                p += 1;
            },
        }
    }
    proof {
        let rest = all.skip(p as int);
        if p < order.len() {
            assert(rest[0] == all[p as int]);
            lemma_text_order_is_total(rest[0], x@);
        }
        assert(insert_descending(rest, x@) =~= seq![x@] + rest);
        assert(texts_view(order@.insert(p as int, x)) =~= all.take(p as int) + (seq![x@] + rest));
    }
    order.insert(p, x);
}

/// The texts in descending order, each kept once.
pub fn descending_texts(items: &[Vec<char>]) -> (order: Vec<Vec<char>>)
    ensures
        texts_view(order@) == descending_set(texts_view(items@), items@.len()),
{
    let mut order: Vec<Vec<char>> = Vec::new();
    let mut i: usize = 0;
    assert(texts_view(order@) =~= Seq::<Seq<char>>::empty());
    while i < items.len()
        invariant
            i <= items.len(),
            texts_view(order@) == descending_set(texts_view(items@), i as nat),
        decreases items.len() - i,
    {
        let item = copy_text(&items[i]);
        assert(texts_view(items@)[i as int] == items@[i as int]@);
        insert_text(&mut order, item);
        i += 1;
    }
    order
}

/// An owned copy of a text.
pub fn copy_text(text: &Vec<char>) -> (out: Vec<char>)
    ensures
        out@ == text@,
{
    let mut out: Vec<char> = Vec::new();
    let mut i: usize = 0;
    while i < text.len()
        invariant
            i <= text.len(),
            out@ == text@.take(i as int),
        decreases text.len() - i,
    {
        out.push(text[i]);
        i += 1;
        assert(out@ =~= text@.take(i as int));
    }
    assert(text@.take(i as int) =~= text@);
    out
}

} // verus!

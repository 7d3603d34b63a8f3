//! The two pieces of mutable UI state: the text of the entry box and the
//! ordered list of items. Each is modelled by a mathematical view — the
//! entry box by its character sequence, the list by the sequence of its
//! items' character sequences — and every mutation is specified against
//! that view.

use vstd::prelude::*;

verus! {

/// The text currently in the entry box. It is always present: the empty
/// string is the initial value and the value after a submit, never an
/// absent one.
pub struct InputField {
    value: String,
}

impl View for InputField {
    type V = Seq<char>;

    closed spec fn view(&self) -> Seq<char> {
        self.value@
    }
}

impl InputField {
    /// A field holding the empty string, as at application start.
    pub fn new() -> (r: Self)
        ensures
            r@ == Seq::<char>::empty(),
    {
        InputField { value: String::new() }
    }

    /// The current value; reading has no effect on the state.
    pub fn get(&self) -> (r: &String)
        ensures
            r@ == self@,
    {
        &self.value
    }

    /// Replace the current value, as a keystroke proxy or a clear does.
    pub fn set(&mut self, value: String)
        ensures
            final(self)@ == value@,
    {
        self.value = value;
    }
}

/// The items of `items` that are not equal to `v`, in their original
/// order: the sequence after a removal by value.
pub open spec fn remove_value(items: Seq<Seq<char>>, v: Seq<char>) -> Seq<Seq<char>>
    decreases items.len(),
{
    if items.len() == 0 {
        Seq::empty()
    } else {
        let rest = remove_value(items.drop_last(), v);
        if items.last() == v {
            rest
        } else {
            rest.push(items.last())
        }
    }
}

/// How many items of `items` are equal to `v`.
pub open spec fn count_of(items: Seq<Seq<char>>, v: Seq<char>) -> nat
    decreases items.len(),
{
    if items.len() == 0 {
        0
    } else {
        count_of(items.drop_last(), v) + if items.last() == v {
            1nat
        } else {
            0nat
        }
    }
}

/// The ordered list of items. Insertion order is the only order; duplicate
/// values are allowed and are told apart by position only.
pub struct ItemList {
    items: Vec<String>,
}

impl View for ItemList {
    type V = Seq<Seq<char>>;

    closed spec fn view(&self) -> Seq<Seq<char>> {
        self.items.deep_view()
    }
}

impl ItemList {
    /// An empty list, as at application start.
    pub fn new() -> (r: Self)
        ensures
            r@ == Seq::<Seq<char>>::empty(),
    {
        let items: Vec<String> = Vec::new();
        proof {
            assert(items.deep_view() =~= Seq::<Seq<char>>::empty());
        }
        ItemList { items }
    }

    /// Add `value` as the new last element. Always succeeds, for empty
    /// strings and duplicates as for any other value.
    pub fn append(&mut self, value: String)
        ensures
            final(self)@ == old(self)@.push(value@),
    {
        self.items.push(value);
        proof {
            assert(self.items.deep_view() =~= old(self)@.push(value@));
        }
    }

    /// Remove every element equal to `value`, keeping the rest in order.
    /// A value that does not occur leaves the list unchanged.
    pub fn remove(&mut self, value: &String)
        ensures
            final(self)@ == remove_value(old(self)@, value@),
    {
        let mut kept: Vec<String> = Vec::new();
        let mut i: usize = 0;
        proof {
            assert(kept.deep_view() =~= Seq::<Seq<char>>::empty());
            assert(old(self)@.take(0) =~= Seq::<Seq<char>>::empty());
        }
        while i < self.items.len()
            invariant
                i <= self.items.len(),
                self.items == old(self).items,
                kept.deep_view() == remove_value(old(self)@.take(i as int), value@),
            decreases self.items.len() - i,
        {
            let it = &self.items[i];
            proof {
                assert(old(self)@.take(i + 1) =~= old(self)@.take(i as int).push(it@));
                lemma_remove_value_push(old(self)@.take(i as int), it@, value@);
            }
            let ghost prev = kept.deep_view();
            if !it.eq(value) {
                kept.push(it.clone());
                proof {
                    assert(kept.deep_view() =~= prev.push(it@));
                }
            }
            i += 1;
        }
        proof {
            assert(old(self)@.take(i as int) =~= old(self)@);
        }
        self.items = kept;
    }

    /// The items in order, for rendering. The position of an item in the
    /// returned sequence is a display label, not a stable identity.
    pub fn snapshot(&self) -> (r: &Vec<String>)
        ensures
            r.deep_view() == self@,
    {
        &self.items
    }

    /// How many items the list holds.
    pub fn len(&self) -> (n: usize)
        ensures
            n == self@.len(),
    {
        self.items.len()
    }
}

/// Extending a sequence by one element extends its removal by value: the
/// new element survives exactly when it differs from the removed value.
pub proof fn lemma_remove_value_push(items: Seq<Seq<char>>, x: Seq<char>, v: Seq<char>)
    ensures
        remove_value(items.push(x), v) == if x == v {
            remove_value(items, v)
        } else {
            remove_value(items, v).push(x)
        },
{
    assert(items.push(x).drop_last() =~= items);
}

/// Extending a sequence by one element raises the count of a value by one
/// exactly when the new element equals it.
pub proof fn lemma_count_of_push(items: Seq<Seq<char>>, x: Seq<char>, v: Seq<char>)
    ensures
        count_of(items.push(x), v) == count_of(items, v) + if x == v {
            1nat
        } else {
            0nat
        },
{
    assert(items.push(x).drop_last() =~= items);
}

/// Appending `v` makes the sequence one longer and puts `v` last; any
/// snapshot taken right after the append therefore ends with `v`.
pub proof fn lemma_append_snapshot(items: Seq<Seq<char>>, v: Seq<char>)
    ensures
        items.push(v).len() == items.len() + 1,
        items.push(v).last() == v,
        items.push(v)[items.len() as int] == v,
{
}

/// Removal by value takes the count of elements equal to `v` to zero — for
/// a value that occurs, a strict decrease from a positive count — and a
/// value that does not occur leaves the sequence unchanged.
pub proof fn lemma_remove_value(items: Seq<Seq<char>>, v: Seq<char>)
    ensures
        count_of(remove_value(items, v), v) == 0,
        count_of(items, v) > 0 <==> items.contains(v),
        !items.contains(v) ==> remove_value(items, v) == items,
    decreases items.len(),
{
    if items.len() == 0 {
        assert(remove_value(items, v) =~= items);
    } else {
        let s = items.drop_last();
        let x = items.last();
        lemma_remove_value(s, v);
        if x != v {
            lemma_count_of_push(remove_value(s, v), x, v);
        }
        if s.contains(v) {
            let i = choose|i: int| 0 <= i < s.len() && s[i] == v;
            assert(items[i] == v);
        }
        if x == v {
            assert(items[items.len() - 1] == v);
        }
        if items.contains(v) && x != v {
            let i = choose|i: int| 0 <= i < items.len() && items[i] == v;
            assert(s[i] == v);
        }
        if !items.contains(v) {
            assert(s.push(x) =~= items);
        }
    }
}

} // verus!

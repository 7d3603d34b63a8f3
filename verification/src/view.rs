//! Derivation of the visual tree from the current state. The derivation is
//! a pure, total function: a title label, the entry box's bound value, and
//! one row per item, each row carrying an index label `T-{index}: {item}`
//! and the item value its remove control was rendered for.

use vstd::prelude::*;

verus! {

/// The decimal digit character for `d`, which must be below ten.
pub open spec fn spec_digit(d: nat) -> char {
    if d == 0 {
        '0'
    } else if d == 1 {
        '1'
    } else if d == 2 {
        '2'
    } else if d == 3 {
        '3'
    } else if d == 4 {
        '4'
    } else if d == 5 {
        '5'
    } else if d == 6 {
        '6'
    } else if d == 7 {
        '7'
    } else if d == 8 {
        '8'
    } else {
        '9'
    }
}

/// The decimal notation of `n`, most significant digit first, without
/// leading zeros except for `0` itself.
pub open spec fn spec_decimal(n: nat) -> Seq<char>
    decreases n,
{
    if n < 10 {
        seq![spec_digit(n)]
    } else {
        spec_decimal(n / 10).push(spec_digit(n % 10))
    }
}

/// The label of the row at `index` showing `item`.
pub open spec fn spec_row_label(index: nat, item: Seq<char>) -> Seq<char> {
    "T-"@ + spec_decimal(index) + ": "@ + item
}

/// The text of the title label derived from the application title.
pub open spec fn spec_title_label(title: Seq<char>) -> Seq<char> {
    title + " - GPUI"@
}

/// Append the digit character for `d` to `s`.
fn push_digit(s: &mut String, d: usize)
    requires
        d < 10,
    ensures
        final(s)@ == old(s)@.push(spec_digit(d as nat)),
{
    let ds: &str = if d == 0 {
        "0"
    } else if d == 1 {
        "1"
    } else if d == 2 {
        "2"
    } else if d == 3 {
        "3"
    } else if d == 4 {
        "4"
    } else if d == 5 {
        "5"
    } else if d == 6 {
        "6"
    } else if d == 7 {
        "7"
    } else if d == 8 {
        "8"
    } else {
        "9"
    };
    proof {
        reveal_strlit("0");
        reveal_strlit("1");
        reveal_strlit("2");
        reveal_strlit("3");
        reveal_strlit("4");
        reveal_strlit("5");
        reveal_strlit("6");
        reveal_strlit("7");
        reveal_strlit("8");
        reveal_strlit("9");
        assert(ds@ =~= seq![spec_digit(d as nat)]);
    }
    s.append(ds);
    proof {
        assert(s@ =~= old(s)@.push(spec_digit(d as nat)));
    }
}

/// Append the decimal notation of `n` to `s`.
fn push_decimal(s: &mut String, n: usize)
    ensures
        final(s)@ == old(s)@ + spec_decimal(n as nat),
    decreases n,
{
    if n >= 10 {
        push_decimal(s, n / 10);
    }
    push_digit(s, n % 10);
    proof {
        if n < 10 {
            assert(old(s)@ + spec_decimal(n as nat) =~= old(s)@.push(spec_digit(n as nat)));
        } else {
            let prior = old(s)@;
            let high = prior + spec_decimal((n / 10) as nat);
            let whole = prior + spec_decimal(n as nat);
            assert(high.push(spec_digit((n % 10) as nat)) =~= whole);
        }
    }
}

/// The decimal notation of `n` as a string.
pub fn decimal_string(n: usize) -> (r: String)
    ensures
        r@ == spec_decimal(n as nat),
{
    let mut r = String::new();
    push_decimal(&mut r, n);
    proof {
        assert(Seq::<char>::empty() + spec_decimal(n as nat) =~= spec_decimal(n as nat));
    }
    r
}

/// One rendered row: its display label and the item value its remove
/// control is parameterized with, captured at derivation time.
#[derive(Debug, PartialEq, Eq)]
pub struct RowNode {
    pub label: String,
    pub remove_payload: String,
}

/// The model of a rendered row.
#[verifier::ext_equal]
pub ghost struct RowModel {
    pub label: Seq<char>,
    pub remove_payload: Seq<char>,
}

impl View for RowNode {
    type V = RowModel;

    open spec fn view(&self) -> RowModel {
        RowModel { label: self.label@, remove_payload: self.remove_payload@ }
    }
}

/// The declarative output of view derivation: a title label, the entry
/// box's displayed value, and one row per item, in item order. The rows'
/// controls carry command payloads only; no behavior is embedded.
#[derive(Debug, PartialEq, Eq)]
pub struct VisualTree {
    pub title: String,
    pub input_value: String,
    pub rows: Vec<RowNode>,
}

/// The model of a derived visual tree.
#[verifier::ext_equal]
pub ghost struct TreeModel {
    pub title: Seq<char>,
    pub input_value: Seq<char>,
    pub rows: Seq<RowModel>,
}

impl View for VisualTree {
    type V = TreeModel;

    open spec fn view(&self) -> TreeModel {
        TreeModel {
            title: self.title@,
            input_value: self.input_value@,
            rows: Seq::new(self.rows@.len(), |i: int| self.rows@[i]@),
        }
    }
}

/// The tree derived from a title, the entry box's value and the items:
/// what `render` returns, as a function of the state alone.
pub open spec fn spec_render(title: Seq<char>, input: Seq<char>, items: Seq<Seq<char>>) -> TreeModel {
    TreeModel {
        title: spec_title_label(title),
        input_value: input,
        rows: Seq::new(
            items.len(),
            |i: int| RowModel { label: spec_row_label(i as nat, items[i]), remove_payload: items[i] },
        ),
    }
}

/// The label of the row at `index` showing `item`.
pub fn row_label(index: usize, item: &String) -> (r: String)
    ensures
        r@ == spec_row_label(index as nat, item@),
{
    let mut r = String::from_str("T-");
    push_decimal(&mut r, index);
    r.append(": ");
    r.append(item.as_str());
    proof {
        assert(r@ =~= spec_row_label(index as nat, item@));
    }
    r
}

/// The text of the title label derived from the application title.
pub fn title_label(title: &String) -> (r: String)
    ensures
        r@ == spec_title_label(title@),
{
    title.clone().concat(" - GPUI")
}

/// Derive the visual tree for the given state. Total: any input value and
/// any list of items, of any length, yields a tree; and pure: the result
/// is a function of the arguments alone.
pub fn render(title: &String, input: &String, items: &Vec<String>) -> (t: VisualTree)
    ensures
        t@ == spec_render(title@, input@, items.deep_view()),
{
    let mut rows: Vec<RowNode> = Vec::new();
    let mut i: usize = 0;
    while i < items.len()
        invariant
            i <= items.len(),
            rows@.len() == i,
            forall|j: int|
                0 <= j < i ==> #[trigger] rows@[j]@ == (RowModel {
                    label: spec_row_label(j as nat, items.deep_view()[j]),
                    remove_payload: items.deep_view()[j],
                }),
        decreases items.len() - i,
    {
        let item = &items[i];
        let label = row_label(i, item);
        rows.push(RowNode { label, remove_payload: item.clone() });
        i += 1;
    }
    let t = VisualTree { title: title_label(title), input_value: input.clone(), rows };
    proof {
        assert(t@.rows =~= spec_render(title@, input@, items.deep_view()).rows);
        assert(t@ =~= spec_render(title@, input@, items.deep_view()));
    }
    t
}

/// View derivation is idempotent and pure: trees derived from the same
/// title, input value and items are identical, however often the
/// derivation runs.
pub proof fn lemma_render_pure(
    t1: TreeModel,
    t2: TreeModel,
    title: Seq<char>,
    input: Seq<char>,
    items: Seq<Seq<char>>,
)
    requires
        t1 == spec_render(title, input, items),
        t2 == spec_render(title, input, items),
    ensures
        t1 == t2,
{
}

} // verus!

//! The table of names, and names made of other names.
use crate::ast::Symbol;
use vstd::prelude::*;

verus! {

/// The texts of the symbols: symbol `i` stands for the `i`-th text.
pub type Texts = Seq<Seq<char>>;

/// Where `text` first stands in `names`.
pub open spec fn position(names: Texts, text: Seq<char>) -> Option<nat>
    decreases names.len(),
{
    if names.len() == 0 {
        None
    } else {
        match position(names.drop_last(), text) {
            Some(index) => Some(index),
            None => if names.last() == text {
                Some((names.len() - 1) as nat)
            } else {
                None
            },
        }
    }
}

/// The symbol of the text at `index`. Texts behind the last index that a symbol can hold share one.
pub open spec fn symbol_at(index: nat) -> Symbol {
    Symbol {
        index: if index <= usize::MAX {
            index as usize
        } else {
            usize::MAX
        },
    }
}

/// The symbol for `text`, and the names with `text` added at the end if it was not among them.
pub open spec fn interned(names: Texts, text: Seq<char>) -> (Texts, Symbol) {
    match position(names, text) {
        Some(index) => (names, symbol_at(index)),
        None => (names.push(text), symbol_at(names.len())),
    }
}

/// Whether every text of `before` is in `after`, at the same place.
pub open spec fn keeps(before: Texts, after: Texts) -> bool {
    &&& before.len() <= after.len()
    &&& forall|i: int| 0 <= i < before.len() ==> #[trigger] after[i] == before[i]
}

/// What `symbol` stands for. A symbol that is not in the table stands for nothing.
pub open spec fn text_of(names: Texts, symbol: Symbol) -> Seq<char> {
    if symbol.index < names.len() {
        names[symbol.index as int]
    } else {
        Seq::empty()
    }
}

/// Whether the text of `symbol` starts with `_`.
pub open spec fn is_underscored(names: Texts, symbol: Symbol) -> bool {
    let text = text_of(names, symbol);
    text.len() > 0 && text[0] == '_'
}

pub open spec fn digit(value: nat) -> char {
    if value == 0 {
        '0'
    } else if value == 1 {
        '1'
    } else if value == 2 {
        '2'
    } else if value == 3 {
        '3'
    } else if value == 4 {
        '4'
    } else if value == 5 {
        '5'
    } else if value == 6 {
        '6'
    } else if value == 7 {
        '7'
    } else if value == 8 {
        '8'
    } else {
        '9'
    }
}

pub open spec fn is_digit(c: char) -> bool {
    '0' as int <= c as int <= '9' as int
}

/// `value` in decimal.
pub open spec fn decimal(value: nat) -> Seq<char>
    decreases value,
{
    if value < 10 {
        seq![digit(value)]
    } else {
        decimal(value / 10).push(digit(value % 10))
    }
}

fn digit_char(value: u64) -> (r: char)
    requires
        value < 10,
    ensures
        r == digit(value as nat),
{
    match value {
        0 => '0',
        1 => '1',
        2 => '2',
        3 => '3',
        4 => '4',
        5 => '5',
        6 => '6',
        7 => '7',
        8 => '8',
        _ => '9',
    }
}

/// `value` in decimal.
pub fn decimal_text(value: u64) -> (r: Vec<char>)
    ensures
        r@ == decimal(value as nat),
    decreases value,
{
    if value < 10 {
        let mut text: Vec<char> = Vec::new();
        text.push(digit_char(value));
        assert(text@ =~= seq![digit(value as nat)]);
        text
    } else {
        let mut text = decimal_text(value / 10);
        text.push(digit_char(value % 10));
        text
    }
}

/// Puts the characters of `text` behind those of `out`.
pub fn push_str(out: &mut Vec<char>, text: &str)
    ensures
        final(out)@ == old(out)@ + text@,
{
    let count: usize = text.unicode_len();
    let mut i: usize = 0;
    assert(text@.take(0) =~= Seq::<char>::empty());
    while i < count
        invariant
            count == text@.len(),
            0 <= i <= count,
            out@ == old(out)@ + text@.take(i as int),
        decreases count - i,
    {
        out.push(text.get_char(i));
        proof {
            assert(text@.take(i + 1) =~= text@.take(i as int).push(text@[i as int]));
            assert(out@ =~= old(out)@ + text@.take(i + 1));
        }
        i = i + 1;
    }
    assert(text@.take(count as int) =~= text@);
}

/// Puts the characters of `text` behind those of `out`.
pub fn push_chars(out: &mut Vec<char>, text: &Vec<char>)
    ensures
        final(out)@ == old(out)@ + text@,
{
    let mut i: usize = 0;
    assert(text@.take(0) =~= Seq::<char>::empty());
    while i < text.len()
        invariant
            0 <= i <= text.len(),
            out@ == old(out)@ + text@.take(i as int),
        decreases text.len() - i,
    {
        out.push(text[i]);
        proof {
            assert(text@.take(i + 1) =~= text@.take(i as int).push(text@[i as int]));
            assert(out@ =~= old(out)@ + text@.take(i + 1));
        }
        i = i + 1;
    }
    assert(text@.take(text.len() as int) =~= text@);
}

fn same_text(first: &Vec<char>, second: &Vec<char>) -> (r: bool)
    ensures
        r == (first@ == second@),
{
    if first.len() != second.len() {
        return false;
    }
    let mut i: usize = 0;
    while i < first.len()
        invariant
            first.len() == second.len(),
            0 <= i <= first.len(),
            forall|j: int| 0 <= j < i ==> first@[j] == second@[j],
        decreases first.len() - i,
    {
        if first[i] != second[i] {
            return false;
        }
        i = i + 1;
    }
    assert(first@ =~= second@);
    true
}

/// The table of names.
#[derive(Debug)]
pub struct Names {
    texts: Vec<Vec<char>>,
}

impl View for Names {
    type V = Texts;

    closed spec fn view(&self) -> Texts {
        self.texts@.map_values(|text: Vec<char>| text@)
    }
}

impl Names {
    /// The table without names.
    pub fn new() -> (r: Names)
        ensures
            r@ == Texts::empty(),
    {
        let names = Names { texts: Vec::new() };
        assert(names@ =~= Texts::empty());
        names
    }

    /// The symbol for `text`. The same text always gets the same symbol.
    pub fn intern_chars(&mut self, text: Vec<char>) -> (r: Symbol)
        ensures
            (final(self)@, r) == interned(old(self)@, text@),
    {
        let ghost names = self@;
        let mut i: usize = 0;
        assert(names.take(0) =~= Texts::empty());
        while i < self.texts.len()
            invariant
                *self == *old(self),
                names == self@,
                0 <= i <= self.texts.len(),
                names.len() == self.texts.len(),
                position(names.take(i as int), text@) is None,
            decreases self.texts.len() - i,
        {
            proof {
                assert(names.take(i + 1).drop_last() =~= names.take(i as int));
                assert(names.take(i + 1).last() == self.texts@[i as int]@);
            }
            if same_text(&self.texts[i], &text) {
                proof {
                    lemma_position_of_prefix(names, text@, (i + 1) as nat);
                }
                return Symbol { index: i };
            }
            i = i + 1;
        }
        proof {
            assert(names.take(i as int) =~= names);
        }
        let index: usize = self.texts.len();
        self.texts.push(text);
        assert(self@ =~= names.push(text@));
        Symbol { index }
    }

    /// The symbol for `text`.
    pub fn intern(&mut self, text: &str) -> (r: Symbol)
        ensures
            (final(self)@, r) == interned(old(self)@, text@),
    {
        let mut chars: Vec<char> = Vec::new();
        push_str(&mut chars, text);
        assert(chars@ =~= text@);
        self.intern_chars(chars)
    }

    /// What `symbol` stands for.
    pub fn text(&self, symbol: Symbol) -> (r: Vec<char>)
        ensures
            r@ == text_of(self@, symbol),
    {
        let mut out: Vec<char> = Vec::new();
        if symbol.index < self.texts.len() {
            push_chars(&mut out, &self.texts[symbol.index]);
            assert(self@[symbol.index as int] == self.texts@[symbol.index as int]@);
            assert(out@ =~= text_of(self@, symbol));
        } else {
            assert(out@ =~= text_of(self@, symbol));
        }
        out
    }

    /// Whether `symbol` stands for `text`.
    pub fn is(&self, symbol: Symbol, text: &str) -> (r: bool)
        ensures
            r == (text_of(self@, symbol) == text@),
    {
        let mut chars: Vec<char> = Vec::new();
        push_str(&mut chars, text);
        assert(chars@ =~= text@);
        same_text(&self.text(symbol), &chars)
    }

    /// Whether the text of `symbol` starts with `_`.
    pub fn name_starts_with_underscore(&self, symbol: Symbol) -> (r: bool)
        ensures
            r == is_underscored(self@, symbol),
    {
        if symbol.index < self.texts.len() {
            let text = &self.texts[symbol.index];
            assert(self@[symbol.index as int] == text@);
            text.len() > 0 && text[0] == '_'
        } else {
            false
        }
    }
}

/// A text found in the first `count` names stands at the same place among all of them.
proof fn lemma_position_of_prefix(names: Texts, text: Seq<char>, count: nat)
    requires
        count <= names.len(),
        position(names.take(count as int), text) is Some,
    ensures
        position(names, text) == position(names.take(count as int), text),
    decreases names.len() - count,
{
    if count == names.len() {
        assert(names.take(count as int) =~= names);
    } else {
        assert(names.take((count + 1) as int).drop_last() =~= names.take(count as int));
        lemma_position_of_prefix(names, text, count + 1);
    }
}

/// A text that is among the names is found, at a place where it stands.
pub proof fn lemma_position(names: Texts, text: Seq<char>)
    ensures
        position(names, text) matches Some(index) ==> index < names.len() && names[index as int]
            == text,
        position(names, text) is None ==> !names.contains(text),
    decreases names.len(),
{
    if names.len() > 0 {
        lemma_position(names.drop_last(), text);
        if position(names, text) is None {
            assert forall|i: int| 0 <= i < names.len() implies names[i] != text by {
                if i < names.len() - 1 {
                    assert(names.drop_last()[i] == names[i]);
                    assert(names.drop_last().contains(names[i]) || names[i] != text);
                }
            }
        }
    }
}

/// A symbol stands for the text it was made from, and every symbol made before still stands for
/// what it stood for.
pub proof fn interning_keeps_texts(names: Texts, text: Seq<char>, earlier: Symbol)
    requires
        names.len() < usize::MAX,
        earlier.index < names.len(),
    ensures
        text_of(interned(names, text).0, interned(names, text).1) == text,
        text_of(interned(names, text).0, earlier) == text_of(names, earlier),
{
    lemma_position(names, text);
}

/// Interning keeps what was there before, and as long as the names are kept the symbol stands for
/// its text.
pub proof fn interned_symbols_last(names: Texts, text: Seq<char>, later: Texts)
    requires
        keeps(interned(names, text).0, later),
        later.len() <= usize::MAX,
    ensures
        keeps(names, later),
        interned(names, text).1.index < later.len(),
        text_of(later, interned(names, text).1) == text,
        interned(later, text) == (later, interned(names, text).1),
{
    lemma_position(names, text);
    let after = interned(names, text).0;
    let index = interned(names, text).1.index;
    assert forall|i: int| 0 <= i < names.len() implies #[trigger] later[i] == names[i] by {
        assert(after[i] == names[i]);
    }
    assert(after[index as int] == text);
    if position(names, text) is None {
        assert(names.push(text).drop_last() =~= names);
        assert(position(after, text) == Some(index as nat));
    }
    assert(later.take(after.len() as int) =~= after);
    lemma_position_of_prefix(later, text, after.len());
}

/// Interning a text twice gives the same symbol and adds nothing the second time.
pub proof fn interning_is_stable(names: Texts, text: Seq<char>)
    requires
        names.len() < usize::MAX,
    ensures
        interned(interned(names, text).0, text) == interned(names, text),
{
    if position(names, text) is None {
        assert(names.push(text).drop_last() =~= names);
    }
}

/// Symbols of different texts differ.
pub proof fn interning_tells_texts_apart(names: Texts, first: Seq<char>, second: Seq<char>)
    requires
        names.len() + 1 < usize::MAX,
        first != second,
    ensures
        interned(names, first).1 != interned(interned(names, first).0, second).1,
{
    lemma_position(names, first);
    let after = interned(names, first).0;
    lemma_position(after, second);
    lemma_position(names, second);
    if position(after, second) is None && position(names, first) is Some {
        assert(after == names);
    }
}

proof fn lemma_decimal_value(value: nat)
    ensures
        decimal(value).len() > 0,
        value >= 10 ==> decimal(value).len() > 1,
    decreases value,
{
    if value >= 10 {
        lemma_decimal_value(value / 10);
    }
}

/// Different numbers have different decimals.
pub proof fn decimal_is_injective(first: nat, second: nat)
    requires
        decimal(first) == decimal(second),
    ensures
        first == second,
    decreases first,
{
    lemma_decimal_value(first);
    lemma_decimal_value(second);
    assert(decimal(first).last() == digit(first % 10));
    assert(decimal(second).last() == digit(second % 10));
    assert(first % 10 == second % 10);
    if first >= 10 {
        assert(decimal(first).drop_last() =~= decimal(first / 10));
        assert(decimal(second).drop_last() =~= decimal(second / 10));
        decimal_is_injective(first / 10, second / 10);
    }
}

proof fn lemma_digits_only(value: nat, index: int)
    requires
        0 <= index < decimal(value).len(),
    ensures
        is_digit(decimal(value)[index]),
    decreases value,
{
    if value >= 10 && index < decimal(value).len() - 1 {
        lemma_digits_only(value / 10, index);
    }
}

/// Names that end in different numbers differ, whatever stands before the numbers, as long as that
/// does not end in a digit.
pub proof fn numbered_names_differ(
    first: Seq<char>,
    second: Seq<char>,
    first_number: nat,
    second_number: nat,
)
    requires
        first.len() > 0,
        !is_digit(first.last()),
        second.len() > 0,
        !is_digit(second.last()),
        first_number != second_number,
    ensures
        first + decimal(first_number) != second + decimal(second_number),
{
    let one = first + decimal(first_number);
    let other = second + decimal(second_number);
    if one == other {
        assert(one[first.len() - 1] == first.last());
        assert(other[second.len() - 1] == second.last());
        lemma_decimal_value(first_number);
        lemma_decimal_value(second_number);
        assert(one.len() == first.len() + decimal(first_number).len());
        assert(other.len() == second.len() + decimal(second_number).len());
        if first.len() < second.len() {
            lemma_digits_only(first_number, second.len() - 1 - first.len());
        } else if first.len() > second.len() {
            lemma_digits_only(second_number, first.len() - 1 - second.len());
        } else {
            assert(one.skip(first.len() as int) =~= decimal(first_number));
            assert(other.skip(first.len() as int) =~= decimal(second_number));
            decimal_is_injective(first_number, second_number);
        }
    }
}

} // verus!

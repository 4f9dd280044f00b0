//! Columns of text in the layout of the columnar engine.
//!
//! A column is kept as an Arrow string array. Its 32-bit offsets bound the
//! bytes that one column can hold, so a column is built only from strings
//! whose UTF-8 encodings fit together.

use vstd::prelude::*;
use vstd::utf8::encode_utf8;
use arrow_array::StringArray;

verus! {

/// One column of strings, held as an Arrow `StringArray`. What it holds is
/// known to the verifier only through `column_strings`. The array is public,
/// so that a caller can hand it to the engine or wrap one that the engine
/// returned.
#[verifier::external_body]
pub struct TextColumn {
    pub array: StringArray,
}

/// The strings of a column, in order: entry `i` is what `StringArray::value`
/// gives for index `i`, and the length is what `Array::len` gives.
pub uninterp spec fn column_strings(column: TextColumn) -> Seq<Seq<char>>;

/// The most bytes that the strings of one column may have together.
pub const COLUMN_BYTES_MAX: usize = 2147483647;

/// The views of a sequence of strings.
pub open spec fn texts_of(values: Seq<String>) -> Seq<Seq<char>> {
    Seq::new(values.len(), |i: int| values[i]@)
}

/// The number of bytes of the UTF-8 encodings of all the strings together.
pub open spec fn total_bytes(texts: Seq<Seq<char>>) -> nat
    decreases texts.len(),
{
    if texts.len() == 0 {
        0
    } else {
        total_bytes(texts.drop_last()) + encode_utf8(texts.last()).len()
    }
}

/// Whether the strings fit into one column.
pub open spec fn fits_column(texts: Seq<Seq<char>>) -> bool {
    total_bytes(texts) <= COLUMN_BYTES_MAX
}

/// A longer prefix of a sequence of strings has at least as many bytes.
pub proof fn lemma_total_bytes_prefix(texts: Seq<Seq<char>>, n: int)
    requires
        0 <= n <= texts.len(),
    ensures
        total_bytes(texts.take(n)) <= total_bytes(texts),
    decreases texts.len(),
{
    if n < texts.len() {
        lemma_total_bytes_prefix(texts.drop_last(), n);
        assert(texts.drop_last().take(n) =~= texts.take(n));
    } else {
        assert(texts.take(n) =~= texts);
    }
}

/// Calls `StringArray::from_iter_values` on the strings. That function copies
/// the bytes of each string in order and panics only when their total exceeds
/// the largest 32-bit offset, which the precondition rules out; the array it
/// returns has no nulls, one entry per string, each equal to its string.
#[verifier::external_body]
fn array_from_values(values: &Vec<String>) -> (column: TextColumn)
    requires
        fits_column(texts_of(values@)),
    ensures
        column_strings(column) == texts_of(values@),
{
    TextColumn { array: StringArray::from_iter_values(values.iter()) }
}

/// Calls `Array::len` on the string array: the number of its entries.
#[verifier::external_body]
fn array_len(column: &TextColumn) -> (n: usize)
    ensures
        n == column_strings(*column).len(),
{
    arrow_array::Array::len(&column.array)
}

/// Calls `StringArray::value`, which panics when the index is out of bounds and
/// otherwise gives the string stored at that index, and copies it.
#[verifier::external_body]
pub(crate) fn array_value(column: &TextColumn, index: usize) -> (value: String)
    requires
        index < column_strings(*column).len(),
    ensures
        value@ == column_strings(*column)[index as int],
{
    column.array.value(index).to_owned()
}

impl View for TextColumn {
    type V = Seq<Seq<char>>;

    open spec fn view(&self) -> Seq<Seq<char>> {
        column_strings(*self)
    }
}

/// The number of bytes of all the strings together, or `None` when that is
/// more than one column holds.
pub fn bytes_within_column(values: &Vec<String>) -> (total: Option<usize>)
    ensures
        match total {
            Some(n) => n == total_bytes(texts_of(values@)) && fits_column(texts_of(values@)),
            None => !fits_column(texts_of(values@)),
        },
{
    let ghost texts = texts_of(values@);
    let mut sum: usize = 0;
    let mut i: usize = 0;
    while i < values.len()
        invariant
            i <= values.len(),
            texts == texts_of(values@),
            sum == total_bytes(texts.take(i as int)),
            sum <= COLUMN_BYTES_MAX,
        decreases values.len() - i,
    {
        let len = values[i].as_str().as_bytes().len();
        proof {
            assert(texts.take(i + 1).drop_last() =~= texts.take(i as int));
            assert(texts.take(i + 1).last() == values[i as int]@);
            assert(total_bytes(texts.take(i + 1)) == total_bytes(texts.take(i as int))
                + encode_utf8(values[i as int]@).len());
            assert(len == encode_utf8(values[i as int]@).len());
            lemma_total_bytes_prefix(texts, i + 1);
        }
        if len > COLUMN_BYTES_MAX - sum {
            return None;
        }
        sum = sum + len;
        i = i + 1;
    }
    proof {
        assert(texts.take(i as int) =~= texts);
    }
    Some(sum)
}

impl TextColumn {
    /// A column of the given strings, in their order; `None` when they do not
    /// fit into one column.
    pub fn from_texts(values: &Vec<String>) -> (column: Option<TextColumn>)
        ensures
            match column {
                Some(c) => c@ == texts_of(values@) && fits_column(texts_of(values@)),
                None => !fits_column(texts_of(values@)),
            },
    {
        match bytes_within_column(values) {
            Some(_) => Some(array_from_values(values)),
            None => None,
        }
    }

    /// The number of entries.
    pub fn len(&self) -> (n: usize)
        ensures
            n == self@.len(),
    {
        array_len(self)
    }

    /// The entry at `index`, or `None` past the end.
    pub fn get(&self, index: usize) -> (value: Option<String>)
        ensures
            match value {
                Some(s) => index < self@.len() && s@ == self@[index as int],
                None => index >= self@.len(),
            },
    {
        if index < array_len(self) {
            Some(array_value(self, index))
        } else {
            None
        }
    }

    /// All the entries, in order.
    pub fn to_texts(&self) -> (values: Vec<String>)
        ensures
            texts_of(values@) == self@,
    {
        let n = array_len(self);
        let mut values: Vec<String> = Vec::new();
        let mut i: usize = 0;
        while i < n
            invariant
                i <= n,
                n == self@.len(),
                values@.len() == i,
                forall|j: int| 0 <= j < i ==> values@[j]@ == self@[j],
            decreases n - i,
        {
            values.push(array_value(self, i));
            i = i + 1;
        }
        proof {
            assert(texts_of(values@) =~= self@);
        }
        values
    }
}

} // verus!

//! A list of keys with their values, shown a windowful at a time.

use vstd::prelude::*;

verus! {

/// Keys with their values, in the order in which they are shown.
pub type KeyValueList = Vec<(String, String)>;

/// The number of bytes of a text, as its length is told.
pub open spec fn spec_byte_len(text: Seq<char>) -> usize {
    vstd::utf8::encode_utf8(text).len() as usize
}

/// Whether `longest` is the number of bytes of the longest key, or 0 for an
/// empty list.
pub open spec fn spec_is_max_key_len(items: Seq<(String, String)>, longest: usize) -> bool {
    &&& forall|i: int| 0 <= i < items.len() ==> spec_byte_len((#[trigger] items[i]).0@) <= longest
    &&& if items.len() == 0 {
        longest == 0
    } else {
        exists|i: int| 0 <= i < items.len() && spec_byte_len((#[trigger] items[i]).0@) == longest
    }
}

/// Whether `longest` is the number of bytes of the longest value, or 0 for
/// an empty list.
pub open spec fn spec_is_max_value_len(items: Seq<(String, String)>, longest: usize) -> bool {
    &&& forall|i: int| 0 <= i < items.len() ==> spec_byte_len((#[trigger] items[i]).1@) <= longest
    &&& if items.len() == 0 {
        longest == 0
    } else {
        exists|i: int| 0 <= i < items.len() && spec_byte_len((#[trigger] items[i]).1@) == longest
    }
}

/// What a row of the list's area shows.
#[derive(Debug, Clone, Copy, PartialEq, Eq, Structural)]
pub enum ListRow {
    /// The entry with the given index: its key, and its value behind the
    /// longest key.
    Entry(usize),
    /// The mark that entries are left out: above the first row that is
    /// shown, or below the last.
    Ellipsis,
    /// Nothing.
    Blank,
}

/// A list of keys and values, of which the rows from `offset` on are shown.
pub struct KeyValueListWidget<'a> {
    pub items: &'a KeyValueList,
    pub max_key_len: usize,
    pub max_value_len: usize,
    pub offset: usize,
}

impl<'a> KeyValueListWidget<'a> {
    /// What row `row` of an area of `height` rows shows, for a list of `len`
    /// entries that is shown from entry `offset` on: the first row stands
    /// for what was left out above, if anything was; the last row stands for
    /// what may follow; every row between them shows its entry; rows past
    /// the end of the list stay blank.
    pub open spec fn spec_row(len: int, offset: int, height: int, row: int) -> ListRow {
        if row < 0 || row >= height || offset + row >= len {
            ListRow::Blank
        } else if row == 0 && offset > 0 {
            ListRow::Ellipsis
        } else if row < height - 1 {
            ListRow::Entry((offset + row) as usize)
        } else {
            ListRow::Ellipsis
        }
    }

    /// The widget for `items`, shown from entry `offset` on, with the widths
    /// of the longest key and of the longest value.
    pub fn new(items: &'a KeyValueList, offset: usize) -> (widget: Self)
        ensures
            widget.items == items,
            widget.offset == offset,
            spec_is_max_key_len(items@, widget.max_key_len),
            spec_is_max_value_len(items@, widget.max_value_len),
    {
        let mut max_key_len: usize = 0;
        let mut max_value_len: usize = 0;
        let mut i: usize = 0;
        while i < items.len()
            invariant
                i <= items@.len(),
                spec_is_max_key_len(items@.take(i as int), max_key_len),
                spec_is_max_value_len(items@.take(i as int), max_value_len),
            decreases items@.len() - i,
        {
            let key_len = items[i].0.as_str().len();
            let value_len = items[i].1.as_str().len();
            let ghost before = items@.take(i as int);
            let ghost after = items@.take(i + 1);
            let ghost old_key = max_key_len;
            let ghost old_value = max_value_len;
            if key_len > max_key_len {
                max_key_len = key_len;
            }
            if value_len > max_value_len {
                max_value_len = value_len;
            }
            proof {
                assert(after[i as int] == items@[i as int]);
                assert forall|j: int| 0 <= j < after.len() implies spec_byte_len(
                    (#[trigger] after[j]).0@,
                ) <= max_key_len by {
                    if j < i {
                        assert(after[j] == before[j]);
                        assert(spec_byte_len(before[j].0@) <= old_key);
                    }
                }
                assert forall|j: int| 0 <= j < after.len() implies spec_byte_len(
                    (#[trigger] after[j]).1@,
                ) <= max_value_len by {
                    if j < i {
                        assert(after[j] == before[j]);
                        assert(spec_byte_len(before[j].1@) <= old_value);
                    }
                }
                if max_key_len == old_key && i > 0 {
                    let w = choose|j: int|
                        0 <= j < before.len() && spec_byte_len((#[trigger] before[j]).0@)
                            == old_key;
                    assert(after[w] == before[w]);
                }
                if max_value_len == old_value && i > 0 {
                    let w = choose|j: int|
                        0 <= j < before.len() && spec_byte_len((#[trigger] before[j]).1@)
                            == old_value;
                    assert(after[w] == before[w]);
                }
            }
            i = i + 1;
        }
        assert(items@.take(items@.len() as int) == items@);
        Self { items, max_key_len, max_value_len, offset }
    }

    /// What row `row` of an area of `height` rows shows.
    pub fn row(&self, height: u16, row: u16) -> (shown: ListRow)
        ensures
            shown == Self::spec_row(
                self.items@.len() as int,
                self.offset as int,
                height as int,
                row as int,
            ),
    {
        let len = self.items.len();
        if row >= height || self.offset >= len || (row as usize) >= len - self.offset {
            ListRow::Blank
        } else if row == 0 && self.offset > 0 {
            ListRow::Ellipsis
        } else if row < height - 1 {
            ListRow::Entry(self.offset + row as usize)
        } else {
            ListRow::Ellipsis
        }
    }
}

} // verus!

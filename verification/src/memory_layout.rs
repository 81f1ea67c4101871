//! The memory layout of a DfuSe device: the sizes of its flash pages, in
//! the order in which they lie.
//!
//! A layout is written as entries separated by commas.  An entry is a page
//! count, a `*`, a page size, a unit (` ` for bytes, `K` or `M`) and one
//! more character that tells the kind of the pages: `04*032Kg`.

use crate::text::{
    all_digits, chars_of, digit_value, find_first, first_index, lemma_first_index, number_value,
    parse_unsigned, unsigned, unsigned_digits,
};
use vstd::prelude::*;
use vstd::std_specs::convert::{FromSpecImpl, TryFromSpecImpl};

verus! {

/// Error while parsing a memory layout.  Each variant holds the piece of
/// text that was refused.
#[derive(Debug)]
pub enum Error {
    /// An entry holds no `*` between page count and page size.
    InvalidPageFormat(String),
    /// The page count of an entry is no number.
    ParseErrorPageCount(String),
    /// The page size of an entry is no number, or does not fit in 32 bits.
    ParseErrorPageSize(String),
    /// The unit behind a page size is none of ` `, `K` and `M`.
    InvalidPrefix(String),
}

/// Why a layout text is refused, with the refused piece as characters.
pub enum Fault {
    /// See [`Error::InvalidPageFormat`].
    InvalidPageFormat(Seq<char>),
    /// See [`Error::ParseErrorPageCount`].
    ParseErrorPageCount(Seq<char>),
    /// See [`Error::ParseErrorPageSize`].
    ParseErrorPageSize(Seq<char>),
    /// See [`Error::InvalidPrefix`].
    InvalidPrefix(Seq<char>),
}

impl View for Error {
    type V = Fault;

    open spec fn view(&self) -> Fault {
        match self {
            Error::InvalidPageFormat(text) => Fault::InvalidPageFormat(text@),
            Error::ParseErrorPageCount(text) => Fault::ParseErrorPageCount(text@),
            Error::ParseErrorPageSize(text) => Fault::ParseErrorPageSize(text@),
            Error::InvalidPrefix(text) => Fault::InvalidPrefix(text@),
        }
    }
}

/// A memory page size.
pub type MemoryPage = u32;

/// A slice of memory pages.
#[allow(non_camel_case_types)]
pub type mem = [MemoryPage];

/// The number of bytes that a unit character stands for.
pub open spec fn unit_factor(unit: char) -> Option<nat> {
    if unit == 'K' {
        Some(1024)
    } else if unit == 'M' {
        Some(1024 * 1024)
    } else if unit == ' ' {
        Some(1)
    } else {
        None
    }
}

/// The pages that one entry stands for, as their number and their size in
/// bytes.  The checks come in this order: the `*`, the two characters
/// behind the size, the count, the size, the unit, and last that the size
/// in bytes fits in 32 bits.  The last character of an entry is not looked
/// at.
pub open spec fn entry_pages(entry: Seq<char>) -> Result<(u32, MemoryPage), Fault> {
    let star = first_index(entry, '*');
    if star == entry.len() {
        Err(Fault::InvalidPageFormat(entry))
    } else {
        let count = entry.take(star);
        let tail = entry.skip(star + 1);
        if tail.len() < 2 {
            Err(Fault::ParseErrorPageSize(tail))
        } else {
            let size = tail.take(tail.len() - 2);
            let unit = tail[tail.len() - 2];
            match (unsigned(count, 10), unsigned(size, 10), unit_factor(unit)) {
                (None, _, _) => Err(Fault::ParseErrorPageCount(count)),
                (Some(_), None, _) => Err(Fault::ParseErrorPageSize(size)),
                (Some(_), Some(_), None) => Err(Fault::InvalidPrefix(seq![unit])),
                (Some(count), Some(number), Some(factor)) => if number * factor <= u32::MAX {
                    Ok((count, (number * factor) as u32))
                } else {
                    Err(Fault::ParseErrorPageSize(size))
                },
            }
        }
    }
}

/// `count` pages of `size` bytes each.
pub open spec fn repeated(count: u32, size: MemoryPage) -> Seq<MemoryPage> {
    Seq::new(count as nat, |i: int| size)
}

/// The pages that a layout text stands for: those of its entries, in the
/// order of the text, or the fault of the first entry that is refused.
pub open spec fn layout_pages(text: Seq<char>) -> Result<Seq<MemoryPage>, Fault>
    decreases text.len(),
{
    let comma = first_index(text, ',');
    match entry_pages(text.take(comma)) {
        Err(fault) => Err(fault),
        Ok((count, size)) => if 0 <= comma < text.len() {
            match layout_pages(text.skip(comma + 1)) {
                Err(fault) => Err(fault),
                Ok(rest) => Ok(repeated(count, size) + rest),
            }
        } else {
            Ok(repeated(count, size))
        },
    }
}

/// The character that writes a decimal digit.
pub open spec fn digit_char(digit: nat) -> char
    recommends
        digit < 10,
{
    ('0' as nat + digit) as char
}

/// A number written in decimal digits, without leading zeros.
pub open spec fn decimal(number: nat) -> Seq<char>
    decreases number,
{
    if number < 10 {
        seq![digit_char(number)]
    } else {
        decimal(number / 10).push(digit_char(number % 10))
    }
}

/// An entry written out: `count` pages of `size` bytes each, of kind `g`.
pub open spec fn entry_text(count: u32, size: MemoryPage) -> Seq<char> {
    decimal(count as nat) + seq!['*'] + decimal(size as nat) + seq![' ', 'g']
}

/// A layout written out, one entry for each page.  A layout without pages
/// is written as an entry of no pages.
pub open spec fn written(pages: Seq<MemoryPage>) -> Seq<char>
    decreases pages.len(),
{
    if pages.len() == 0 {
        entry_text(0, 0)
    } else if pages.len() == 1 {
        entry_text(1, pages[0])
    } else {
        entry_text(1, pages[0]) + seq![','] + written(pages.skip(1))
    }
}

/// A number written in decimal holds digits only, and reads back as itself.
pub proof fn lemma_decimal(number: nat)
    ensures
        decimal(number).len() > 0,
        forall|i: int|
            0 <= i < decimal(number).len() ==> '0' <= #[trigger] decimal(number)[i] <= '9',
        all_digits(decimal(number), 10),
        number_value(decimal(number), 10) == number,
        number <= u32::MAX ==> unsigned(decimal(number), 10) == Some(number as u32),
    decreases number,
{
    let text = decimal(number);
    if number < 10 {
        assert(text[0] == digit_char(number));
        assert(digit_value(digit_char(number), 10) == Some(number));
        assert(text.drop_last().len() == 0);
        assert(number_value(text.drop_last(), 10) == 0);
        assert(number_value(text, 10) == 0 * 10 + number);
    } else {
        let head = decimal(number / 10);
        let last = digit_char(number % 10);
        lemma_decimal(number / 10);
        assert(digit_value(last, 10) == Some(number % 10));
        assert(text.drop_last() =~= head);
        assert(text.last() == last);
        assert forall|i: int| 0 <= i < text.len() implies '0' <= #[trigger] text[i] <= '9' by {
            if i < head.len() {
                assert(text[i] == head[i]);
            }
        }
        assert forall|i: int| 0 <= i < text.len() implies (#[trigger] digit_value(
            text[i],
            10,
        )) is Some by {
            if i < head.len() {
                assert(text[i] == head[i]);
            }
        }
        assert(number_value(text, 10) == (number / 10) * 10 + number % 10);
    }
    assert(text[0] != '+');
    assert(unsigned_digits(text) == text);
}

/// An entry that was written out reads back as what was written.
pub proof fn lemma_entry_reads_back(count: u32, size: MemoryPage)
    ensures
        entry_pages(entry_text(count, size)) == Ok::<(u32, MemoryPage), Fault>((count, size)),
        first_index(entry_text(count, size), ',') == entry_text(count, size).len(),
{
    let counted = decimal(count as nat);
    let sized = decimal(size as nat);
    let text = entry_text(count, size);
    lemma_decimal(count as nat);
    lemma_decimal(size as nat);
    let star = counted.len() as int;
    assert(text.len() == counted.len() + sized.len() + 3);
    assert forall|i: int| 0 <= i < text.len() implies text[i] != ',' && (i != star ==> text[i]
        != '*') && (i == star ==> text[i] == '*') by {
        if i < star {
            assert(text[i] == counted[i]);
        } else if i == star {
        } else if i < star + 1 + sized.len() {
            assert(text[i] == sized[i - star - 1]);
        } else if i == star + 1 + sized.len() {
            assert(text[i] == ' ');
        } else {
            assert(text[i] == 'g');
        }
    }
    lemma_first_index(text, '*', star);
    lemma_first_index(text, ',', text.len() as int);
    let tail = text.skip(star + 1);
    assert(text.take(star) =~= counted);
    assert(tail =~= sized + seq![' ', 'g']);
    assert(tail.take(tail.len() - 2) =~= sized);
    assert(tail[tail.len() - 2] == ' ');
    assert(unit_factor(' ') == Some(1nat));
    assert(first_index(text, '*') == star);
    assert(star != text.len());
    assert(tail.len() >= 2);
    assert(unsigned(text.take(star), 10) == Some(count));
    assert(unsigned(tail.take(tail.len() - 2), 10) == Some(size));
    assert(size * 1nat <= u32::MAX);
    assert((size * 1nat) as u32 == size);
}

/// Writing pages out and reading the text gives the pages back: every
/// layout can be written, and no page is lost or reordered by reading.
pub proof fn lemma_written_reads_back(pages: Seq<MemoryPage>)
    ensures
        layout_pages(written(pages)) == Ok::<Seq<MemoryPage>, Fault>(pages),
    decreases pages.len(),
{
    let text = written(pages);
    if pages.len() == 0 {
        lemma_entry_reads_back(0, 0);
        assert(text.take(text.len() as int) =~= text);
        assert(repeated(0, 0) =~= pages);
    } else if pages.len() == 1 {
        lemma_entry_reads_back(1, pages[0]);
        assert(text.take(text.len() as int) =~= text);
        assert(repeated(1, pages[0]) =~= pages);
    } else {
        let entry = entry_text(1, pages[0]);
        let rest = written(pages.skip(1));
        lemma_entry_reads_back(1, pages[0]);
        lemma_first_index(entry, ',', entry.len() as int);
        assert forall|i: int| 0 <= i < entry.len() implies text[i] != ',' by {
            assert(text[i] == entry[i]);
        }
        assert(text[entry.len() as int] == ',');
        lemma_first_index(text, ',', entry.len() as int);
        assert(text.take(entry.len() as int) =~= entry);
        assert(text.skip(entry.len() as int + 1) =~= rest);
        lemma_written_reads_back(pages.skip(1));
        assert(repeated(1, pages[0]) + pages.skip(1) =~= pages);
    }
}

/// Reading a text, writing the pages out and reading them again gives the
/// same pages.
pub proof fn lemma_read_write_read(text: Seq<char>, pages: Seq<MemoryPage>)
    requires
        layout_pages(text) == Ok::<Seq<MemoryPage>, Fault>(pages),
    ensures
        layout_pages(written(pages)) == layout_pages(text),
{
    lemma_written_reads_back(pages);
}

/// Memory layout.
pub struct MemoryLayout(Vec<MemoryPage>);

impl View for MemoryLayout {
    type V = Seq<MemoryPage>;

    closed spec fn view(&self) -> Seq<MemoryPage> {
        self.0@
    }
}

impl MemoryLayout {
    /// Create a new empty instance of [`MemoryLayout`].
    pub fn new() -> (layout: Self)
        ensures
            layout@ == Seq::<MemoryPage>::empty(),
    {
        Self(Vec::new())
    }

    /// The page sizes, in order.
    pub fn as_slice(&self) -> (pages: &[MemoryPage])
        ensures
            pages@ == self@,
    {
        self.0.as_slice()
    }
}

impl AsRef<mem> for MemoryLayout {
    fn as_ref(&self) -> (pages: &mem)
        ensures
            pages@ == self@,
    {
        self.0.as_slice()
    }
}

impl Default for MemoryLayout {
    fn default() -> (layout: Self)
        ensures
            layout@ == Seq::<MemoryPage>::empty(),
    {
        Self::new()
    }
}

impl From<Vec<MemoryPage>> for MemoryLayout {
    fn from(vec: Vec<MemoryPage>) -> (layout: Self)
        ensures
            layout@ == vec@,
    {
        Self(vec)
    }
}

impl FromSpecImpl<Vec<MemoryPage>> for MemoryLayout {
    open spec fn obeys_from_spec() -> bool {
        true
    }

    closed spec fn from_spec(vec: Vec<MemoryPage>) -> Self {
        MemoryLayout(vec)
    }
}

impl core::ops::Deref for MemoryLayout {
    type Target = Vec<MemoryPage>;

    fn deref(&self) -> (pages: &Vec<MemoryPage>)
        ensures
            pages@ == self@,
    {
        &self.0
    }
}

/// Copies the characters from `from` up to `to` out of a string.
fn piece(src: &str, from: usize, to: usize) -> (text: String)
    requires
        from <= to <= src@.len(),
    ensures
        text@ == src@.subrange(from as int, to as int),
{
    src.substring_char(from, to).to_owned()
}

/// Reads the entry that the characters from `from` up to `to` hold.
fn parse_entry(src: &str, text: &[char], from: usize, to: usize) -> (outcome: Result<
    (u32, MemoryPage),
    Error,
>)
    requires
        text@ == src@,
        from <= to <= text@.len(),
    ensures
        match outcome {
            Ok(pages) => entry_pages(text@.subrange(from as int, to as int)) == Ok::<
                (u32, MemoryPage),
                Fault,
            >(pages),
            Err(error) => entry_pages(text@.subrange(from as int, to as int)) == Err::<
                (u32, MemoryPage),
                Fault,
            >(error@),
        },
{
    let ghost entry = text@.subrange(from as int, to as int);
    let star = find_first(text, from, to, '*');
    if star == to {
        return Err(Error::InvalidPageFormat(piece(src, from, to)));
    }
    let ghost tail = entry.skip(star - from + 1);
    assert(entry.take(star - from) =~= text@.subrange(from as int, star as int));
    assert(tail =~= text@.subrange(star + 1, to as int));
    if to - (star + 1) < 2 {
        return Err(Error::ParseErrorPageSize(piece(src, star + 1, to)));
    }
    let unit_at = to - 2;
    assert(tail.take(tail.len() - 2) =~= text@.subrange(star + 1, unit_at as int));
    assert(tail[tail.len() - 2] == text@[unit_at as int]);
    let count = match parse_unsigned(text, from, star, 10) {
        Some(count) => count,
        None => {
            return Err(Error::ParseErrorPageCount(piece(src, from, star)));
        },
    };
    let number = match parse_unsigned(text, star + 1, unit_at, 10) {
        Some(number) => number,
        None => {
            return Err(Error::ParseErrorPageSize(piece(src, star + 1, unit_at)));
        },
    };
    let unit = text[unit_at];
    let factor: u32 = if unit == 'K' {
        1024
    } else if unit == 'M' {
        1024 * 1024
    } else if unit == ' ' {
        1
    } else {
        let refused = piece(src, unit_at, unit_at + 1);
        assert(refused@ =~= seq![unit]);
        return Err(Error::InvalidPrefix(refused));
    };
    match number.checked_mul(factor) {
        Some(size) => Ok((count, size)),
        None => Err(Error::ParseErrorPageSize(piece(src, star + 1, unit_at))),
    }
}

impl TryFrom<&str> for MemoryLayout {
    type Error = Error;

    /// Reads a layout text.  Succeeds if and only if every entry is well
    /// formed, and then holds the pages of all entries in the order of the
    /// text; else fails with the fault of the first entry that is refused.
    fn try_from(src: &str) -> (outcome: Result<Self, Error>)
        ensures
            match outcome {
                Ok(layout) => layout_pages(src@) == Ok::<Seq<MemoryPage>, Fault>(layout@),
                Err(error) => layout_pages(src@) == Err::<Seq<MemoryPage>, Fault>(error@),
            },
    {
        let text = chars_of(src);
        let len = text.len();
        let mut pages: Vec<MemoryPage> = Vec::new();
        let mut from: usize = 0;
        proof {
            assert(src@.skip(0) =~= src@);
            if let Ok(rest) = layout_pages(src@) {
                assert(pages@ + rest =~= rest);
            }
        }
        loop
            invariant
                text@ == src@,
                len == text@.len(),
                from <= len,
                layout_pages(src@) == match layout_pages(src@.skip(from as int)) {
                    Ok(rest) => Ok::<Seq<MemoryPage>, Fault>(pages@ + rest),
                    Err(fault) => Err(fault),
                },
            decreases len - from,
        {
            let ghost remaining = src@.skip(from as int);
            let ghost before = pages@;
            let comma = find_first(text.as_slice(), from, len, ',');
            assert(text@.subrange(from as int, len as int) =~= remaining);
            assert(remaining.take(comma - from) =~= text@.subrange(from as int, comma as int));
            let (count, size) = match parse_entry(src, text.as_slice(), from, comma) {
                Ok(entry) => entry,
                Err(error) => {
                    return Err(error);
                },
            };
            let mut i: u32 = 0;
            while i < count
                invariant
                    i <= count,
                    pages@ == before + repeated(i, size),
                decreases count - i,
            {
                pages.push(size);
                assert(pages@ =~= before + repeated((i + 1) as u32, size));
                i += 1;
            }
            if comma == len {
                assert(pages@ + Seq::<MemoryPage>::empty() =~= pages@);
                return Ok(Self(pages));
            }
            assert(remaining.skip(comma - from + 1) =~= src@.skip(comma + 1));
            assert forall|rest: Seq<MemoryPage>|
                before + (repeated(count, size) + rest) == #[trigger] (pages@ + rest) by {
                assert(before + (repeated(count, size) + rest) =~= pages@ + rest);
            }
            from = comma + 1;
        }
    }
}

impl TryFromSpecImpl<&str> for MemoryLayout {
    /// The result holds owned text, which has no equality in
    /// specifications: its contract is the one of `try_from`, over views.
    open spec fn obeys_try_from_spec() -> bool {
        false
    }

    open spec fn try_from_spec(src: &str) -> Result<Self, Error> {
        arbitrary()
    }
}

} // verus!

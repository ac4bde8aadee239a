//! Google Sheets: value-range URLs and the note grid of a notes update.

use crate::http::query::enc;
use crate::text::{find_char, find_char_from, lemma_find_char, lemma_rfind_char, rfind_char, rfind_char_exec, signed_decimal, signed_decimal_string, string_or_empty, urlencoding};
use vstd::prelude::*;
use vstd::string::StrSliceExecFns;
use vstd::string::StringExecFns;

verus! {

/// Base URL of the Sheets API.
pub const SHEETS_BASE: &'static str = "https://sheets.googleapis.com/v4";

/// The URL of a spreadsheet (metadata).
pub fn spreadsheet_url(spreadsheet_id: &str) -> (r: String)
    ensures
        r@ == SHEETS_BASE@ + "/spreadsheets/"@ + spreadsheet_id@,
{
    let mut url = String::from_str(SHEETS_BASE);
    url.append("/spreadsheets/");
    url.append(spreadsheet_id);
    url
}

/// The URL creating a spreadsheet.
pub fn spreadsheets_url() -> (r: String)
    ensures
        r@ == SHEETS_BASE@ + "/spreadsheets"@,
{
    let mut url = String::from_str(SHEETS_BASE);
    url.append("/spreadsheets");
    url
}

/// The URL applying a batch of update requests to a spreadsheet.
pub fn batch_update_url(spreadsheet_id: &str) -> (r: String)
    ensures
        r@ == SHEETS_BASE@ + "/spreadsheets/"@ + spreadsheet_id@ + ":batchUpdate"@,
{
    let mut url = spreadsheet_url(spreadsheet_id);
    url.append(":batchUpdate");
    url
}

/// The URL copying one sheet of a spreadsheet into another spreadsheet.
pub fn sheet_copy_url(spreadsheet_id: &str, sheet_id: i64) -> (r: String)
    ensures
        r@ == SHEETS_BASE@ + "/spreadsheets/"@ + spreadsheet_id@ + "/sheets/"@ + signed_decimal(sheet_id as int)
            + ":copyTo"@,
{
    let mut url = spreadsheet_url(spreadsheet_id);
    url.append("/sheets/");
    let id = signed_decimal_string(sheet_id);
    url.append(id.as_str());
    url.append(":copyTo");
    url
}

/// The values of a range of a spreadsheet.
pub open spec fn values_path(spreadsheet_id: Seq<char>, range: Seq<char>) -> Seq<char> {
    SHEETS_BASE@ + "/spreadsheets/"@ + spreadsheet_id + "/values/"@ + enc(range)
}

/// The URL of the values of a range (read).
pub fn values_url(spreadsheet_id: &str, range: &str) -> (r: String)
    ensures
        r@ == values_path(spreadsheet_id@, range@),
{
    let mut url = String::from_str(SHEETS_BASE);
    url.append("/spreadsheets/");
    url.append(spreadsheet_id);
    url.append("/values/");
    let r = urlencoding(range);
    url.append(r.as_str());
    url
}

/// The URL that overwrites a range with user-entered values.
pub fn values_update_url(spreadsheet_id: &str, range: &str) -> (r: String)
    ensures
        r@ == values_path(spreadsheet_id@, range@) + "?valueInputOption=USER_ENTERED"@,
{
    let mut url = values_url(spreadsheet_id, range);
    url.append("?valueInputOption=USER_ENTERED");
    url
}

/// The URL that appends user-entered rows after a range.
pub fn values_append_url(spreadsheet_id: &str, range: &str) -> (r: String)
    ensures
        r@ == values_path(spreadsheet_id@, range@)
            + ":append?valueInputOption=USER_ENTERED&insertDataOption=INSERT_ROWS"@,
{
    let mut url = values_url(spreadsheet_id, range);
    url.append(":append?valueInputOption=USER_ENTERED&insertDataOption=INSERT_ROWS");
    url
}

/// The URL that clears a range.
pub fn values_clear_url(spreadsheet_id: &str, range: &str) -> (r: String)
    ensures
        r@ == values_path(spreadsheet_id@, range@) + ":clear"@,
{
    let mut url = values_url(spreadsheet_id, range);
    url.append(":clear");
    url
}

/// The URL that reads a range with its grid data, notes included.
pub fn notes_read_url(spreadsheet_id: &str, range: &str) -> (r: String)
    ensures
        r@ == SHEETS_BASE@ + "/spreadsheets/"@ + spreadsheet_id@ + "?ranges="@ + enc(range@)
            + "&includeGridData=true"@,
{
    let mut url = String::from_str(SHEETS_BASE);
    url.append("/spreadsheets/");
    url.append(spreadsheet_id);
    url.append("?ranges=");
    let r = urlencoding(range);
    url.append(r.as_str());
    url.append("&includeGridData=true");
    url
}

/// The note of a cell: the given text, or empty (which clears it).
pub open spec fn cell_note(n: Option<String>) -> Seq<char> {
    match n {
        Some(s) => s@,
        None => Seq::empty(),
    }
}

/// The notes written by a notes update, row by row: each absent note is
/// written as an empty one.
pub fn note_grid(notes: &[Vec<Option<String>>]) -> (r: Vec<Vec<String>>)
    ensures
        r@.len() == notes@.len(),
        forall|i: int|
            0 <= i < notes@.len() ==> (#[trigger] r@[i])@.len() == notes@[i]@.len() && forall|j: int|
                0 <= j < notes@[i]@.len() ==> (#[trigger] r@[i]@[j])@ == cell_note(notes@[i]@[j]),
{
    let mut rows: Vec<Vec<String>> = Vec::new();
    let mut i: usize = 0;
    while i < notes.len()
        invariant
            i <= notes@.len(),
            rows@.len() == i,
            forall|a: int|
                0 <= a < i ==> (#[trigger] rows@[a])@.len() == notes@[a]@.len() && forall|j: int|
                    0 <= j < notes@[a]@.len() ==> (#[trigger] rows@[a]@[j])@ == cell_note(notes@[a]@[j]),
        decreases notes.len() - i,
    {
        let row = &notes[i];
        let mut cells: Vec<String> = Vec::new();
        let mut j: usize = 0;
        while j < row.len()
            invariant
                j <= row@.len(),
                cells@.len() == j,
                forall|b: int| 0 <= b < j ==> (#[trigger] cells@[b])@ == cell_note(row@[b]),
            decreases row.len() - j,
        {
            cells.push(string_or_empty(&row[j]));
            j = j + 1;
        }
        rows.push(cells);
        i = i + 1;
    }
    rows
}

/// An ASCII letter.
pub open spec fn is_ascii_letter(c: char) -> bool {
    ('A' <= c && c <= 'Z') || ('a' <= c && c <= 'z')
}

/// An ASCII decimal digit.
pub open spec fn is_ascii_digit(c: char) -> bool {
    '0' <= c && c <= '9'
}

/// The value of a column letter: `A` (or `a`) is 1, `Z` is 26.
pub open spec fn letter_value(c: char) -> int {
    if 'a' <= c && c <= 'z' {
        c as int - 'a' as int + 1
    } else {
        c as int - 'A' as int + 1
    }
}

/// The number of a column named by letters: `A` is 1, `Z` 26, `AA` 27.
pub open spec fn column_number(letters: Seq<char>) -> int
    decreases letters.len(),
{
    if letters.len() == 0 {
        0
    } else {
        column_number(letters.drop_last()) * 26 + letter_value(letters.last())
    }
}

/// The value of a string of decimal digits.
pub open spec fn digits_value(digits: Seq<char>) -> int
    decreases digits.len(),
{
    if digits.len() == 0 {
        0
    } else {
        digits_value(digits.drop_last()) * 10 + (digits.last() as int - '0' as int)
    }
}

/// The cell part of an A1 range: after the sheet name (the text up to the
/// last `!`), up to the first `:`; `A1` in `Sheet1!A1:C3`.
pub open spec fn range_first_cell(range: Seq<char>) -> Seq<char> {
    let after = range.skip(rfind_char(range, '!') + 1);
    after.take(find_char(after, ':'))
}

/// Whether `cell` splits at `n` into column letters and row digits.
pub open spec fn cell_split(cell: Seq<char>, n: int) -> bool {
    &&& 0 < n < cell.len()
    &&& forall|i: int| 0 <= i < n ==> is_ascii_letter(#[trigger] cell[i])
    &&& forall|i: int| n <= i < cell.len() ==> is_ascii_digit(#[trigger] cell[i])
}

/// The zero-based (row, column) of a cell named like `B3` when it splits at
/// `n`, the row number is at least 1 and both indices fit in a `u32`.
pub open spec fn cell_index_at(cell: Seq<char>, n: int) -> Option<(u32, u32)> {
    let row = digits_value(cell.skip(n));
    let col = column_number(cell.take(n));
    if cell_split(cell, n) && 1 <= row && row - 1 <= u32::MAX && col - 1 <= u32::MAX {
        Some(((row - 1) as u32, (col - 1) as u32))
    } else {
        None
    }
}

proof fn lemma_column_grows(l: Seq<char>, k: int)
    requires
        0 <= k <= l.len(),
        forall|i: int| 0 <= i < l.len() ==> is_ascii_letter(#[trigger] l[i]),
    ensures
        column_number(l.take(k)) <= column_number(l),
        1 <= k ==> 1 <= column_number(l.take(k)),
    decreases l.len() - k,
{
    if k < l.len() {
        lemma_column_grows(l, k + 1);
        assert(l.take(k + 1).drop_last() =~= l.take(k));
        assert(is_ascii_letter(l[k]));
        assert(column_number(l.take(k)) >= 0) by {
            lemma_column_nonneg(l.take(k));
        }
    } else {
        assert(l.take(k) =~= l);
    }
    if 1 <= k {
        assert(l.take(k).drop_last() =~= l.take(k - 1));
        assert(is_ascii_letter(l[k - 1]));
        lemma_column_nonneg(l.take(k - 1));
    }
}

proof fn lemma_column_nonneg(l: Seq<char>)
    requires
        forall|i: int| 0 <= i < l.len() ==> is_ascii_letter(#[trigger] l[i]),
    ensures
        column_number(l) >= 0,
    decreases l.len(),
{
    if l.len() > 0 {
        assert forall|i: int| 0 <= i < l.drop_last().len() implies is_ascii_letter(#[trigger] l.drop_last()[i]) by {
            assert(l.drop_last()[i] == l[i]);
        }
        lemma_column_nonneg(l.drop_last());
        assert(is_ascii_letter(l[l.len() - 1]));
    }
}

proof fn lemma_digits_grow(d: Seq<char>, k: int)
    requires
        0 <= k <= d.len(),
        forall|i: int| 0 <= i < d.len() ==> is_ascii_digit(#[trigger] d[i]),
    ensures
        0 <= digits_value(d.take(k)) <= digits_value(d),
    decreases d.len() - k,
{
    if k < d.len() {
        lemma_digits_grow(d, k + 1);
        assert(d.take(k + 1).drop_last() =~= d.take(k));
        assert(is_ascii_digit(d[k]));
    } else {
        assert(d.take(k) =~= d);
    }
    lemma_digits_nonneg(d.take(k));
}

proof fn lemma_digits_nonneg(d: Seq<char>)
    ensures
        (forall|i: int| 0 <= i < d.len() ==> is_ascii_digit(#[trigger] d[i])) ==> digits_value(d) >= 0,
    decreases d.len(),
{
    if d.len() > 0 {
        lemma_digits_nonneg(d.drop_last());
        if forall|i: int| 0 <= i < d.len() ==> is_ascii_digit(#[trigger] d[i]) {
            assert forall|i: int| 0 <= i < d.drop_last().len() implies is_ascii_digit(#[trigger] d.drop_last()[i]) by {
                assert(d.drop_last()[i] == d[i]);
            }
            assert(is_ascii_digit(d[d.len() - 1]));
        }
    }
}

fn ascii_letter(c: char) -> (b: bool)
    ensures
        b == is_ascii_letter(c),
{
    ('A' <= c && c <= 'Z') || ('a' <= c && c <= 'z')
}

fn ascii_digit(c: char) -> (b: bool)
    ensures
        b == is_ascii_digit(c),
{
    '0' <= c && c <= '9'
}

/// The zero-based (row, column) of the first cell of an A1 range (such as
/// `Sheet1!B3:D9`, or `B3`): column letters then a row number of at least 1,
/// both indices fitting in a `u32`; `None` for anything else (a whole column
/// or row, a named range, an out-of-range index).
pub fn range_start_cell(range: &str) -> (r: Option<(u32, u32)>)
    ensures
        match r {
            Some(rc) => exists|n: int| cell_index_at(range_first_cell(range@), n) == Some(rc),
            None => forall|n: int| #[trigger] cell_index_at(range_first_cell(range@), n).is_none(),
        },
{
    let ghost s = range@;
    let len = range.unicode_len();
    proof {
        lemma_rfind_char(s, '!');
    }
    let lo: usize = match rfind_char_exec(range, '!') {
        Some(i) => i + 1,
        None => 0,
    };
    let hi = find_char_from(range, ':', lo);
    let ghost cell = range_first_cell(s);
    proof {
        lemma_find_char(s.skip(lo as int), ':');
        assert(cell =~= s.subrange(lo as int, hi as int));
    }
    // the run of column letters
    let mut i = lo;
    while i < hi && ascii_letter(range.get_char(i))
        invariant
            lo <= i <= hi <= s.len(),
            s == range@,
            cell == s.subrange(lo as int, hi as int),
            cell == range_first_cell(s),
            forall|k: int| 0 <= k < i - lo ==> is_ascii_letter(#[trigger] cell[k]),
        decreases hi - i,
    {
        assert(cell[i - lo] == s[i as int]);
        i = i + 1;
    }
    let ghost n: int = i - lo;
    proof {
        if i < hi {
            assert(cell[n] == s[i as int]);
        }
    }
    // a split can only be at the end of the letter run
    assert forall|m: int| cell_split(cell, m) implies m == n by {
        if m < n {
            assert(is_ascii_letter(cell[m]) && is_ascii_digit(cell[m]));
        } else if m > n {
            assert(is_ascii_letter(cell[n]));
        }
    }
    if i == lo || i == hi {
        assert forall|m: int| #[trigger] cell_index_at(cell, m).is_none() by {
            if cell_split(cell, m) {
                assert(m == n);
            }
        }
        return None;
    }
    // the row digits
    let mut j = i;
    while j < hi
        invariant
            i <= j <= hi <= s.len(),
            s == range@,
            cell == s.subrange(lo as int, hi as int),
            cell == range_first_cell(s),
            forall|k: int| n <= k < j - lo ==> is_ascii_digit(#[trigger] cell[k]),
            n == i - lo,
            lo <= i,
            cell.len() == hi - lo,
            forall|k: int| 0 <= k < n ==> is_ascii_letter(#[trigger] cell[k]),
            forall|m: int| cell_split(cell, m) ==> m == n,
        decreases hi - j,
    {
        let c = range.get_char(j);
        assert(cell[j - lo] == c);
        if !ascii_digit(c) {
            assert(!cell_split(cell, n));
            assert forall|m: int| #[trigger] cell_index_at(cell, m).is_none() by {
                if cell_split(cell, m) {
                    assert(m == n);
                }
            }
            return None;
        }
        j = j + 1;
    }
    assert(cell_split(cell, n));
    let ghost letters = cell.take(n);
    let ghost digits = cell.skip(n);
    assert forall|k: int| 0 <= k < letters.len() implies is_ascii_letter(#[trigger] letters[k]) by {
        assert(letters[k] == cell[k]);
    }
    assert forall|k: int| 0 <= k < digits.len() implies is_ascii_digit(#[trigger] digits[k]) by {
        assert(digits[k] == cell[n + k]);
    }
    // the column number, given up once it is beyond any u32 index
    let mut col: u64 = 0;
    let mut k = lo;
    while k < i
        invariant
            lo <= k <= i,
            i - lo == n,
            n <= cell.len(),
            s == range@,
            cell == s.subrange(lo as int, hi as int),
            cell == range_first_cell(s),
            letters == cell.take(n),
            hi <= s.len(),
            i < hi,
            forall|q: int| 0 <= q < letters.len() ==> is_ascii_letter(#[trigger] letters[q]),
            col == column_number(letters.take(k - lo)),
            col <= 0x1_0000_0000,
            cell.len() == hi - lo,
            forall|m: int| cell_split(cell, m) ==> m == n,
        decreases i - k,
    {
        let c = range.get_char(k);
        assert(letters[k - lo] == c);
        assert(letters.take(k - lo + 1).drop_last() =~= letters.take(k - lo));
        let v: u64 = if 'a' <= c && c <= 'z' { (c as u64) - ('a' as u64) + 1 } else { (c as u64) - ('A' as u64) + 1 };
        col = col * 26 + v;
        k = k + 1;
        if col > 0x1_0000_0000 {
            proof {
                lemma_column_grows(letters, k - lo);
            }
            return None;
        }
    }
    assert(letters.take(n) =~= letters);
    // the row number, likewise
    let mut row: u64 = 0;
    let mut k2 = i;
    while k2 < hi
        invariant
            i <= k2 <= hi <= s.len(),
            i - lo == n,
            s == range@,
            cell == s.subrange(lo as int, hi as int),
            cell == range_first_cell(s),
            digits == cell.skip(n),
            forall|q: int| 0 <= q < digits.len() ==> is_ascii_digit(#[trigger] digits[q]),
            row == digits_value(digits.take(k2 - i)),
            row <= 0x1_0000_0000,
            lo <= i,
            cell.len() == hi - lo,
            forall|m: int| cell_split(cell, m) ==> m == n,
            col == column_number(letters),
            letters == cell.take(n),
        decreases hi - k2,
    {
        let c = range.get_char(k2);
        assert(digits[k2 - i] == c);
        assert(digits.take(k2 - i + 1).drop_last() =~= digits.take(k2 - i));
        row = row * 10 + ((c as u64) - ('0' as u64));
        k2 = k2 + 1;
        if row > 0x1_0000_0000 {
            proof {
                lemma_digits_grow(digits, k2 - i);
            }
            assert forall|m: int| #[trigger] cell_index_at(cell, m).is_none() by {
                if cell_split(cell, m) {
                    assert(m == n);
                }
            }
            return None;
        }
    }
    assert(digits.take(digits.len() as int) =~= digits);
    proof {
        lemma_column_grows(letters, 1);
    }
    if row < 1 || row - 1 > 0xFFFF_FFFF || col - 1 > 0xFFFF_FFFF {
        assert forall|m: int| #[trigger] cell_index_at(cell, m).is_none() by {
            if cell_split(cell, m) {
                assert(m == n);
            }
        }
        return None;
    }
    assert(cell_index_at(cell, n) == Some(((row - 1) as u32, (col - 1) as u32)));
    Some(((row - 1) as u32, (col - 1) as u32))
}

} // verus!

use vstd::prelude::*;

verus! {

/// Stands between a series identifier and the index of an item in it.
pub const TOKEN_DELIMETER: char = ':';

/// Stands between the title of a series and the index of an item in it.
pub const TITLE_DELIMETER: &'static str = " #";

/// The character that writes the digit `d`.
pub open spec fn digit_char(d: nat) -> char {
    if d == 0 {
        '0'
    } else if d == 1 {
        '1'
    } else if d == 2 {
        '2'
    } else if d == 3 {
        '3'
    } else if d == 4 {
        '4'
    } else if d == 5 {
        '5'
    } else if d == 6 {
        '6'
    } else if d == 7 {
        '7'
    } else if d == 8 {
        '8'
    } else {
        '9'
    }
}

/// The digit that `c` writes, and 0 for any other character.
pub open spec fn digit_value(c: char) -> nat {
    if c == '1' {
        1
    } else if c == '2' {
        2
    } else if c == '3' {
        3
    } else if c == '4' {
        4
    } else if c == '5' {
        5
    } else if c == '6' {
        6
    } else if c == '7' {
        7
    } else if c == '8' {
        8
    } else if c == '9' {
        9
    } else {
        0
    }
}

/// One of the ten digits.
pub open spec fn is_digit(c: char) -> bool {
    c == '0' || c == '1' || c == '2' || c == '3' || c == '4' || c == '5' || c == '6' || c == '7'
        || c == '8' || c == '9'
}

/// The decimal numeral of `n`, most significant digit first, without leading zeros.
pub open spec fn decimal_text(n: nat) -> Seq<char>
    decreases n,
{
    if n < 10 {
        seq![digit_char(n)]
    } else {
        decimal_text(n / 10).push(digit_char(n % 10))
    }
}

/// The number that a sequence of digits writes.
pub open spec fn decimal_value(s: Seq<char>) -> nat
    decreases s.len(),
{
    if s.len() == 0 {
        0
    } else {
        decimal_value(s.drop_last()) * 10 + digit_value(s.last())
    }
}

/// A numeral is never empty and holds digits only.
pub proof fn lemma_decimal_text_digits(n: nat)
    ensures
        decimal_text(n).len() >= 1,
        forall|i: int| 0 <= i < decimal_text(n).len() ==> is_digit(#[trigger] decimal_text(n)[i]),
    decreases n,
{
    if n >= 10 {
        lemma_decimal_text_digits(n / 10);
    }
}

/// Reading a numeral gives back the number it was written from.
pub proof fn lemma_decimal_value_of_text(n: nat)
    ensures
        decimal_value(decimal_text(n)) == n,
    decreases n,
{
    let text = decimal_text(n);
    if n < 10 {
        assert(text.drop_last() =~= Seq::<char>::empty());
        assert(decimal_value(text.drop_last()) == 0);
        assert(text.last() == digit_char(n));
    } else {
        lemma_decimal_value_of_text(n / 10);
        assert(text.drop_last() =~= decimal_text(n / 10));
        assert(text.last() == digit_char(n % 10));
    }
    assert(digit_value(digit_char(n % 10)) == n % 10);
    assert(decimal_value(text) == decimal_value(text.drop_last()) * 10 + digit_value(text.last()));
}

/// Two numbers with the same numeral are the same number.
pub proof fn lemma_decimal_text_injective(a: nat, b: nat)
    requires
        decimal_text(a) == decimal_text(b),
    ensures
        a == b,
{
    lemma_decimal_value_of_text(a);
    lemma_decimal_value_of_text(b);
}

fn digit(d: u8) -> (s: &'static str)
    requires
        d < 10,
    ensures
        s@ == seq![digit_char(d as nat)],
{
    proof {
        reveal_strlit("0");
        reveal_strlit("1");
        reveal_strlit("2");
        reveal_strlit("3");
        reveal_strlit("4");
        reveal_strlit("5");
        reveal_strlit("6");
        reveal_strlit("7");
        reveal_strlit("8");
        reveal_strlit("9");
    }
    let s = if d == 0 {
        "0"
    } else if d == 1 {
        "1"
    } else if d == 2 {
        "2"
    } else if d == 3 {
        "3"
    } else if d == 4 {
        "4"
    } else if d == 5 {
        "5"
    } else if d == 6 {
        "6"
    } else if d == 7 {
        "7"
    } else if d == 8 {
        "8"
    } else {
        "9"
    };
    assert(s@ =~= seq![digit_char(d as nat)]);
    s
}

/// Writes `n` as a decimal numeral.
pub fn decimal(n: u128) -> (s: String)
    ensures
        s@ == decimal_text(n as nat),
    decreases n,
{
    if n < 10 {
        String::from_str(digit(n as u8))
    } else {
        let head = decimal(n / 10);
        let last = digit((n % 10) as u8);
        let s = head.concat(last);
        assert(s@ =~= decimal_text(n as nat));
        s
    }
}

/// The identifier of the item with the 1-based `index` in the series `series_id`.
pub open spec fn token_id_text(series_id: Seq<char>, index: nat) -> Seq<char> {
    series_id + seq![TOKEN_DELIMETER] + decimal_text(index)
}

/// Composes the identifier of the item with the 1-based `index` in a series.
pub fn token_id_of(series_id: &String, index: u128) -> (id: String)
    ensures
        id@ == token_id_text(series_id@, index as nat),
{
    proof {
        reveal_strlit(":");
    }
    let number = decimal(index);
    let id = series_id.clone().concat(":").concat(number.as_str());
    assert(id@ =~= token_id_text(series_id@, index as nat));
    id
}

/// The first position at or after `from` where `s` holds `c`, and the length of `s` where
/// there is none.
pub open spec fn find_from(s: Seq<char>, c: char, from: int) -> int
    decreases s.len() - from,
{
    if from >= s.len() || s[from] == c {
        from
    } else {
        find_from(s, c, from + 1)
    }
}

/// What an item identifier holds before its first delimiter: the series identifier.
pub open spec fn series_part(token_id: Seq<char>) -> Seq<char> {
    token_id.subrange(0, find_from(token_id, TOKEN_DELIMETER, 0))
}

/// What an item identifier holds between its first delimiter and the next: the index.
/// An identifier without a delimiter has none.
pub open spec fn index_part(token_id: Seq<char>) -> Option<Seq<char>> {
    let first = find_from(token_id, TOKEN_DELIMETER, 0);
    if first >= token_id.len() {
        None
    } else {
        Some(token_id.subrange(first + 1, find_from(token_id, TOKEN_DELIMETER, first + 1)))
    }
}

/// Where `s` holds `c` at `at` and not between `from` and `at`, the search from `from`
/// stops at `at`; where it holds none from `from` on, the search stops at the end.
pub proof fn lemma_find_from_is(s: Seq<char>, c: char, from: int, at: int)
    requires
        0 <= from <= at <= s.len(),
        forall|i: int| from <= i < at ==> s[i] != c,
        at < s.len() ==> s[at] == c,
    ensures
        find_from(s, c, from) == at,
    decreases at - from,
{
    if from < at {
        lemma_find_from_is(s, c, from + 1, at);
    }
}

fn find_char(s: &str, c: char, from: usize, len: usize) -> (at: usize)
    requires
        from <= len,
        len == s@.len(),
    ensures
        at == find_from(s@, c, from as int),
        from <= at <= len,
{
    let mut at: usize = from;
    while at < len && s.get_char(at) != c
        invariant
            from <= at <= len,
            len == s@.len(),
            find_from(s@, c, from as int) == find_from(s@, c, at as int),
        decreases len - at,
    {
        at = at + 1;
    }
    at
}

/// Splits an item identifier at its delimiters into the series identifier and the index.
pub fn split_token_id(token_id: &String) -> (parts: (String, Option<String>))
    ensures
        parts.0@ == series_part(token_id@),
        match parts.1 {
            Some(index) => index_part(token_id@) == Some(index@),
            None => index_part(token_id@).is_none(),
        },
{
    let s = token_id.as_str();
    let len = s.unicode_len();
    let first = find_char(s, TOKEN_DELIMETER, 0, len);
    let series = String::from_str(s.substring_char(0, first));
    if first >= len {
        (series, None)
    } else {
        let second = find_char(s, TOKEN_DELIMETER, first + 1, len);
        let index = String::from_str(s.substring_char(first + 1, second));
        (series, Some(index))
    }
}

/// A series identifier that is a numeral, and the index of an item, are read back
/// unchanged from the item's identifier.
pub proof fn lemma_token_id_parts(series: nat, index: nat)
    ensures
        series_part(token_id_text(decimal_text(series), index)) == decimal_text(series),
        index_part(token_id_text(decimal_text(series), index)) == Some(decimal_text(index)),
{
    let sid = decimal_text(series);
    let idx = decimal_text(index);
    let id = token_id_text(sid, index);
    lemma_decimal_text_digits(series);
    lemma_decimal_text_digits(index);
    assert(id.len() == sid.len() + 1 + idx.len());
    assert forall|i: int| 0 <= i < sid.len() implies id[i] != TOKEN_DELIMETER by {
        assert(id[i] == sid[i]);
        assert(is_digit(sid[i]));
    }
    assert(id[sid.len() as int] == TOKEN_DELIMETER);
    lemma_find_from_is(id, TOKEN_DELIMETER, 0, sid.len() as int);
    assert forall|i: int| sid.len() + 1 <= i < id.len() implies id[i] != TOKEN_DELIMETER by {
        assert(id[i] == idx[i - sid.len() - 1]);
        assert(is_digit(idx[i - sid.len() - 1]));
    }
    lemma_find_from_is(id, TOKEN_DELIMETER, (sid.len() + 1) as int, id.len() as int);
    assert(id.subrange(0, sid.len() as int) =~= sid);
    assert(id.subrange((sid.len() + 1) as int, id.len() as int) =~= idx);
}

/// Items of different series, or with different indices, have different identifiers.
pub proof fn lemma_token_id_injective(series_a: nat, index_a: nat, series_b: nat, index_b: nat)
    requires
        token_id_text(decimal_text(series_a), index_a) == token_id_text(
            decimal_text(series_b),
            index_b,
        ),
    ensures
        series_a == series_b,
        index_a == index_b,
{
    lemma_token_id_parts(series_a, index_a);
    lemma_token_id_parts(series_b, index_b);
    lemma_decimal_text_injective(series_a, series_b);
    lemma_decimal_text_injective(index_a, index_b);
}

} // verus!

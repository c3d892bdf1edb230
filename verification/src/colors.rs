use vstd::prelude::*;

verus! {

/// Red, green and blue components of a color.
#[derive(Debug, Default, Copy, Clone, Eq, PartialEq, Structural, Ord, PartialOrd, Hash)]
pub struct RGB {
    /// Red component.
    pub red: u8,
    /// Green component.
    pub green: u8,
    /// Blue component.
    pub blue: u8,
}

impl RGB {
    /// Create a new instance.
    pub fn new(red: u8, green: u8, blue: u8) -> (color: Self)
        ensures
            color == (RGB { red, green, blue }),
    {
        Self { red, green, blue }
    }
}

/// Background and foreground colors.
#[derive(Debug, Default, Copy, Clone, Eq, PartialEq, Structural, Ord, PartialOrd, Hash)]
pub struct LayerColors {
    /// Background color.
    pub background: RGB,
    /// Foreground color.
    pub foreground: RGB,
}

impl LayerColors {
    /// Create a new instance.
    pub fn new(background: RGB, foreground: RGB) -> (colors: Self)
        ensures
            colors == (LayerColors { background, foreground }),
    {
        Self { background, foreground }
    }
}

/// Colors of a security context.
#[derive(Debug, Default, Copy, Clone, Eq, PartialEq, Structural, Ord, PartialOrd, Hash)]
pub struct SecurityContextColors {
    /// Background and foreground colors of SELinux user.
    pub user: LayerColors,
    /// Background and foreground colors of SELinux role.
    pub role: LayerColors,
    /// Background and foreground colors of SELinux type.
    pub the_type: LayerColors,
    /// Background and foreground colors of SELinux range.
    pub range: LayerColors,
}

impl SecurityContextColors {
    /// Create a new instance.
    pub fn new(
        user: LayerColors,
        role: LayerColors,
        the_type: LayerColors,
        range: LayerColors,
    ) -> (colors: Self)
        ensures
            colors == (SecurityContextColors { user, role, the_type, range }),
    {
        Self { user, role, the_type, range }
    }
}

/// `true` for the bytes that separate the colors of a color text: space,
/// tabulation, line feed, form feed and carriage return.
pub open spec fn is_separator(byte: u8) -> bool {
    byte == 32 || byte == 9 || byte == 10 || byte == 12 || byte == 13
}

/// Index of the first byte of `text`, at or after `from`, that is no separator.
pub open spec fn word_start(text: Seq<u8>, from: int) -> int
    decreases text.len() - from,
{
    if 0 <= from < text.len() && is_separator(text[from]) {
        word_start(text, from + 1)
    } else {
        from
    }
}

/// Index of the first byte of `text`, at or after `from`, that is a separator.
pub open spec fn word_end(text: Seq<u8>, from: int) -> int
    decreases text.len() - from,
{
    if 0 <= from < text.len() && !is_separator(text[from]) {
        word_end(text, from + 1)
    } else {
        from
    }
}

/// Words of `text` at or after `from`: its maximal runs of bytes that are no
/// separators, in order.
pub open spec fn words_from(text: Seq<u8>, from: int) -> Seq<Seq<u8>>
    decreases text.len() - from,
{
    let start = word_start(text, from);
    let end = word_end(text, start);
    if 0 <= from <= start && start < end <= text.len() {
        seq![text.subrange(start, end)] + words_from(text, end)
    } else {
        Seq::empty()
    }
}

/// Words of `text`.
pub open spec fn words(text: Seq<u8>) -> Seq<Seq<u8>> {
    words_from(text, 0)
}

/// Value of a hexadecimal digit, in either case.
pub open spec fn hex_digit(byte: u8) -> Option<nat> {
    if 48 <= byte <= 57 {
        Some((byte - 48) as nat)
    } else if 97 <= byte <= 102 {
        Some((byte - 87) as nat)
    } else if 65 <= byte <= 70 {
        Some((byte - 55) as nat)
    } else {
        None
    }
}

/// `true` if every byte of `digits` is a hexadecimal digit.
pub open spec fn all_hex_digits(digits: Seq<u8>) -> bool {
    forall|i: int| 0 <= i < digits.len() ==> hex_digit(#[trigger] digits[i]) is Some
}

/// Number that the hexadecimal digits `digits` write, most significant first.
pub open spec fn hex_number(digits: Seq<u8>) -> nat
    decreases digits.len(),
{
    if digits.len() == 0 {
        0
    } else {
        hex_number(digits.drop_last()) * 16 + match hex_digit(digits.last()) {
            Some(value) => value,
            None => 0,
        }
    }
}

/// Digits of a number text: what follows its optional plus sign.
pub open spec fn unsigned_digits(number: Seq<u8>) -> Seq<u8> {
    if number.len() > 0 && number[0] == 43 {
        number.skip(1)
    } else {
        number
    }
}

/// Color that `word` writes: a number sign, then a hexadecimal number of at
/// most 24 bits, whose low byte is the red component, whose middle byte is
/// the green one and whose high byte is the blue one.
pub open spec fn word_color(word: Seq<u8>) -> Option<RGB> {
    if word.len() > 0 && word[0] == 35 {
        let digits = unsigned_digits(word.skip(1));
        if digits.len() > 0 && all_hex_digits(digits) && hex_number(digits) <= 0xff_ffff {
            let n = hex_number(digits);
            Some(
                RGB {
                    red: (n % 256) as u8,
                    green: ((n / 256) % 256) as u8,
                    blue: ((n / 65536) % 256) as u8,
                },
            )
        } else {
            None
        }
    } else {
        None
    }
}

/// Colors that a color text writes: its first eight words must each write a
/// color. They come in pairs of foreground, then background, for the user,
/// the role, the type and the range, in this order.
pub open spec fn text_colors(text: Seq<u8>) -> Option<SecurityContextColors> {
    let w = words(text);
    if w.len() >= 8 && (forall|i: int| 0 <= i < 8 ==> word_color(#[trigger] w[i]) is Some) {
        Some(
            SecurityContextColors {
                user: LayerColors {
                    background: word_color(w[1]).unwrap(),
                    foreground: word_color(w[0]).unwrap(),
                },
                role: LayerColors {
                    background: word_color(w[3]).unwrap(),
                    foreground: word_color(w[2]).unwrap(),
                },
                the_type: LayerColors {
                    background: word_color(w[5]).unwrap(),
                    foreground: word_color(w[4]).unwrap(),
                },
                range: LayerColors {
                    background: word_color(w[7]).unwrap(),
                    foreground: word_color(w[6]).unwrap(),
                },
            },
        )
    } else {
        None
    }
}

/// A number never gets smaller when a digit is appended to it.
proof fn lemma_hex_number_grows(digits: Seq<u8>, count: int)
    requires
        0 <= count <= digits.len(),
    ensures
        hex_number(digits.take(count)) <= hex_number(digits),
    decreases digits.len() - count,
{
    if count == digits.len() {
        assert(digits.take(count) == digits);
    } else {
        lemma_hex_number_grows(digits, count + 1);
        let longer = digits.take(count + 1);
        assert(longer.drop_last() == digits.take(count));
        assert(hex_number(longer) >= hex_number(longer.drop_last())) by (nonlinear_arith)
            requires
                hex_number(longer) == hex_number(longer.drop_last()) * 16 + match hex_digit(
                    longer.last(),
                ) {
                    Some(value) => value,
                    None => 0,
                },
        ;
    }
}

/// Value of the hexadecimal digit `byte`, if it is one.
fn hex_digit_value(byte: u8) -> (value: Option<u32>)
    ensures
        value is Some <==> hex_digit(byte) is Some,
        value matches Some(v) ==> hex_digit(byte) == Some(v as nat) && v < 16,
{
    if 48 <= byte && byte <= 57 {
        Some((byte - 48) as u32)
    } else if 97 <= byte && byte <= 102 {
        Some((byte - 87) as u32)
    } else if 65 <= byte && byte <= 70 {
        Some((byte - 55) as u32)
    } else {
        None
    }
}

/// Color written by the word `text[start..end]`.
fn parse_word_color(text: &[u8], start: usize, end: usize) -> (color: Option<RGB>)
    requires
        start < end <= text.len(),
    ensures
        color == word_color(text@.subrange(start as int, end as int)),
{
    let ghost word = text@.subrange(start as int, end as int);
    if text[start] != 35 {
        return None;
    }
    let mut index: usize = start + 1;
    if index < end && text[index] == 43 {
        index += 1;
    }
    let first: usize = index;
    let ghost digits = unsigned_digits(word.skip(1));
    assert(digits == text@.subrange(first as int, end as int));
    if first == end {
        return None;
    }
    let mut number: u32 = 0;
    while index < end
        invariant
            start < first <= index <= end <= text.len(),
            word == text@.subrange(start as int, end as int),
            word[0] == 35,
            digits == unsigned_digits(word.skip(1)),
            digits == text@.subrange(first as int, end as int),
            all_hex_digits(digits.take(index - first)),
            number == hex_number(digits.take(index - first)),
            number <= 0xff_ffff,
        decreases end - index,
    {
        let ghost seen = digits.take(index - first);
        let ghost longer = digits.take(index - first + 1);
        assert(longer.drop_last() == seen);
        assert(longer.last() == text@[index as int]);
        match hex_digit_value(text[index]) {
            None => {
                assert(!all_hex_digits(digits)) by {
                    assert(digits[index - first] == text@[index as int]);
                }
                return None;
            },
            Some(value) => {
                let next: u32 = number * 16 + value;
                assert(next == hex_number(longer));
                if next > 0xff_ffff {
                    proof {
                        lemma_hex_number_grows(digits, index - first + 1);
                    }
                    return None;
                }
                assert(all_hex_digits(longer)) by {
                    assert forall|i: int| 0 <= i < longer.len() implies hex_digit(
                        #[trigger] longer[i],
                    ) is Some by {
                        if i < seen.len() {
                            assert(longer[i] == seen[i]);
                        }
                    }
                }
                number = next;
            },
        }
        index += 1;
    }
    assert(digits.take(index - first) == digits);
    Some(
        RGB {
            red: (number % 256) as u8,
            green: ((number / 256) % 256) as u8,
            blue: ((number / 65536) % 256) as u8,
        },
    )
}

/// Index of the first byte of `text`, at or after `from`, that is no separator.
fn find_word_start(text: &[u8], from: usize) -> (start: usize)
    requires
        from <= text.len(),
    ensures
        start == word_start(text@, from as int),
        from <= start <= text.len(),
{
    let mut index: usize = from;
    while index < text.len() && (text[index] == 32 || text[index] == 9 || text[index] == 10
        || text[index] == 12 || text[index] == 13)
        invariant
            from <= index <= text.len(),
            word_start(text@, from as int) == word_start(text@, index as int),
        decreases text.len() - index,
    {
        index += 1;
    }
    index
}

/// Index of the first byte of `text`, at or after `from`, that is a separator.
fn find_word_end(text: &[u8], from: usize) -> (end: usize)
    requires
        from <= text.len(),
    ensures
        end == word_end(text@, from as int),
        from <= end <= text.len(),
{
    let mut index: usize = from;
    while index < text.len() && !(text[index] == 32 || text[index] == 9 || text[index] == 10
        || text[index] == 12 || text[index] == 13)
        invariant
            from <= index <= text.len(),
            word_end(text@, from as int) == word_end(text@, index as int),
        decreases text.len() - index,
    {
        index += 1;
    }
    index
}

/// Colors written by the color text `text`.
pub fn parse_colors(text: &[u8]) -> (colors: Option<SecurityContextColors>)
    ensures
        colors == text_colors(text@),
{
    let mut found: Vec<RGB> = Vec::new();
    let mut position: usize = 0;
    let mut valid: bool = true;
    let ghost mut seen: Seq<Seq<u8>> = Seq::empty();
    while found.len() < 8 && valid
        invariant
            position <= text.len(),
            found.len() <= 8,
            words(text@) == seen + words_from(text@, position as int),
            valid ==> seen.len() == found.len(),
            valid ==> forall|i: int|
                0 <= i < found.len() ==> word_color(#[trigger] seen[i]) == Some(found@[i]),
            !valid ==> text_colors(text@) is None,
        decreases (if valid { 1int } else { 0int }), text.len() - position,
    {
        let start = find_word_start(text, position);
        let end = find_word_end(text, start);
        if start >= end {
            assert(words_from(text@, position as int) == Seq::<Seq<u8>>::empty());
            assert(words(text@) == seen);
            valid = false;
        } else {
            let ghost word = text@.subrange(start as int, end as int);
            assert(words_from(text@, position as int) == seq![word] + words_from(
                text@,
                end as int,
            ));
            assert(words(text@) == seen.push(word) + words_from(text@, end as int));
            match parse_word_color(text, start, end) {
                Some(color) => {
                    found.push(color);
                    position = end;
                    proof {
                        seen = seen.push(word);
                    }
                },
                None => {
                    assert(words(text@)[seen.len() as int] == word);
                    assert(word_color(words(text@)[seen.len() as int]) is None);
                    valid = false;
                },
            }
        }
    }
    if valid {
        assert(forall|i: int| 0 <= i < 8 ==> words(text@)[i] == seen[i]);
        Some(
            SecurityContextColors {
                user: LayerColors { background: found[1], foreground: found[0] },
                role: LayerColors { background: found[3], foreground: found[2] },
                the_type: LayerColors { background: found[5], foreground: found[4] },
                range: LayerColors { background: found[7], foreground: found[6] },
            },
        )
    } else {
        None
    }
}

} // verus!

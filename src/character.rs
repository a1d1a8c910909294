//! Characters (the participants of a lobby) and their text listing.
use vstd::prelude::*;

verus! {

/// A registered character. `id` is the identifier of the user who owns it;
/// one user may own several characters.
#[derive(Clone, Debug)]
pub struct Character {
    pub id: u64,
    pub guild_id: u64,
    pub name: String,
    pub class: String,
    pub item_level: i32,
}

impl Character {
    /// A field-by-field copy.
    pub fn duplicate(&self) -> (r: Character)
        ensures
            r == *self,
    {
        Character {
            id: self.id,
            guild_id: self.guild_id,
            name: self.name.clone(),
            class: self.class.clone(),
            item_level: self.item_level,
        }
    }
}

/// The character for the decimal digit `d`.
pub open spec fn digit_char(d: nat) -> char {
    if d == 0 { '0' }
    else if d == 1 { '1' }
    else if d == 2 { '2' }
    else if d == 3 { '3' }
    else if d == 4 { '4' }
    else if d == 5 { '5' }
    else if d == 6 { '6' }
    else if d == 7 { '7' }
    else if d == 8 { '8' }
    else { '9' }
}

/// Decimal digits of `n`, most significant first, without leading zeros.
pub open spec fn digits(n: nat) -> Seq<char>
    decreases n,
{
    if n < 10 {
        seq![digit_char(n)]
    } else {
        digits(n / 10).push(digit_char(n % 10))
    }
}

/// Decimal text of an integer, with a leading `-` when it is negative.
pub open spec fn decimal(n: int) -> Seq<char> {
    if n < 0 {
        seq!['-'] + digits((-n) as nat)
    } else {
        digits(n as nat)
    }
}

/// `s` followed by as many `fill` characters as bring it to `width`
/// (unchanged when it is already at least that long).
pub open spec fn pad_right(s: Seq<char>, width: nat, fill: char) -> Seq<char> {
    if s.len() >= width {
        s
    } else {
        s + Seq::new((width - s.len()) as nat, |_i: int| fill)
    }
}

/// The listing line of one character:
/// name and class left-aligned in 15 columns, item level in 5.
pub open spec fn character_line(c: Character) -> Seq<char> {
    pad_right(c.name@, 15, ' ') + seq![' '] + pad_right(c.class@, 15, ' ') + " -> "@
        + pad_right(decimal(c.item_level as int), 5, ' ') + " ilvl \n"@
}

/// The listing lines of `cs`, in order.
pub open spec fn character_lines(cs: Seq<Character>) -> Seq<char>
    decreases cs.len(),
{
    if cs.len() == 0 {
        Seq::empty()
    } else {
        character_lines(cs.drop_last()) + character_line(cs.last())
    }
}

/// The header of the listing: column titles and a rule under them.
pub open spec fn listing_header() -> Seq<char> {
    pad_right("Name"@, 15, ' ') + seq![' '] + pad_right("Class"@, 15, ' ') + "    "@
        + "Item Level"@ + seq!['\n'] + pad_right(Seq::empty(), 15, '-') + seq![' ']
        + pad_right(Seq::empty(), 15, '-') + "    "@ + pad_right(Seq::empty(), 10, '-')
        + seq!['\n']
}

/// The whole listing, fenced as a code block.
pub open spec fn character_listing(cs: Seq<Character>) -> Seq<char> {
    "```"@ + listing_header() + character_lines(cs) + "```"@
}

fn push_char_str(out: &mut String, c: char)
    requires
        c == ' ' || c == '-' || c == '\n',
    ensures
        final(out)@ == old(out)@.push(c),
{
    if c == ' ' {
        proof { reveal_strlit(" "); }
        out.append(" ");
    } else if c == '-' {
        proof { reveal_strlit("-"); }
        out.append("-");
    } else {
        proof { reveal_strlit("\n"); }
        out.append("\n");
    }
}

fn push_digit(out: &mut String, d: u32)
    requires
        d < 10,
    ensures
        final(out)@ == old(out)@.push(digit_char(d as nat)),
{
    let s: &str = if d == 0 {
        proof { reveal_strlit("0"); }
        "0"
    } else if d == 1 {
        proof { reveal_strlit("1"); }
        "1"
    } else if d == 2 {
        proof { reveal_strlit("2"); }
        "2"
    } else if d == 3 {
        proof { reveal_strlit("3"); }
        "3"
    } else if d == 4 {
        proof { reveal_strlit("4"); }
        "4"
    } else if d == 5 {
        proof { reveal_strlit("5"); }
        "5"
    } else if d == 6 {
        proof { reveal_strlit("6"); }
        "6"
    } else if d == 7 {
        proof { reveal_strlit("7"); }
        "7"
    } else if d == 8 {
        proof { reveal_strlit("8"); }
        "8"
    } else {
        proof { reveal_strlit("9"); }
        "9"
    };
    assert(s@ =~= seq![digit_char(d as nat)]);
    out.append(s);
}

fn push_digits(out: &mut String, n: u32)
    ensures
        final(out)@ == old(out)@ + digits(n as nat),
    decreases n,
{
    if n >= 10 {
        push_digits(out, n / 10);
        push_digit(out, n % 10);
        assert(out@ =~= old(out)@ + digits(n as nat));
    } else {
        push_digit(out, n);
        assert(out@ =~= old(out)@ + digits(n as nat));
    }
}

/// Appends the decimal text of `n`.
fn push_decimal(out: &mut String, n: i32)
    ensures
        final(out)@ == old(out)@ + decimal(n as int),
{
    if n < 0 {
        proof { reveal_strlit("-"); }
        out.append("-");
        let m: u32 = if n == i32::MIN {
            2147483648u32
        } else {
            (-n) as u32
        };
        push_digits(out, m);
        assert(out@ =~= old(out)@ + decimal(n as int));
    } else {
        push_digits(out, n as u32);
    }
}

/// Appends `s`, then `fill` until what was appended is `width` long.
fn push_padded(out: &mut String, s: &str, width: usize, fill: char)
    requires
        fill == ' ' || fill == '-',
    ensures
        final(out)@ == old(out)@ + pad_right(s@, width as nat, fill),
{
    out.append(s);
    let len = s.unicode_len();
    let mut k: usize = len;
    while k < width
        invariant
            fill == ' ' || fill == '-',
            len == s@.len(),
            len <= k,
            k <= width || k == len,
            out@ == old(out)@ + s@ + Seq::new((k - len) as nat, |_i: int| fill),
        decreases width - k,
    {
        push_char_str(out, fill);
        assert(Seq::new((k - len) as nat, |_i: int| fill).push(fill)
            =~= Seq::new((k + 1 - len) as nat, |_i: int| fill));
        k = k + 1;
    }
    if len >= width {
        assert(Seq::new((k - len) as nat, |_i: int| fill) =~= Seq::<char>::empty());
        assert(out@ =~= old(out)@ + pad_right(s@, width as nat, fill));
    } else {
        assert(out@ =~= old(out)@ + pad_right(s@, width as nat, fill));
    }
}

/// Appends `n` in decimal, padded with spaces to `width`.
fn push_decimal_padded(out: &mut String, n: i32, width: usize)
    ensures
        final(out)@ == old(out)@ + pad_right(decimal(n as int), width as nat, ' '),
{
    let mut text = String::new();
    push_decimal(&mut text, n);
    assert(text@ =~= decimal(n as int));
    push_padded(out, text.as_str(), width, ' ');
}

/// The characters as a fenced text table: a header with the columns
/// `Name`, `Class` and `Item Level`, a rule, then one line per character.
pub fn construct_character_list(characters: &Vec<Character>) -> (r: String)
    ensures
        r@ == character_listing(characters@),
{
    let mut out = String::new();
    out.append("```");
    push_padded(&mut out, "Name", 15, ' ');
    push_char_str(&mut out, ' ');
    push_padded(&mut out, "Class", 15, ' ');
    out.append("    ");
    out.append("Item Level");
    push_char_str(&mut out, '\n');
    push_padded(&mut out, "", 15, '-');
    push_char_str(&mut out, ' ');
    push_padded(&mut out, "", 15, '-');
    out.append("    ");
    push_padded(&mut out, "", 10, '-');
    push_char_str(&mut out, '\n');
    proof { reveal_strlit(""); }
    assert(out@ =~= "```"@ + listing_header());
    let mut i: usize = 0;
    while i < characters.len()
        invariant
            i <= characters@.len(),
            out@ == "```"@ + listing_header() + character_lines(characters@.take(i as int)),
        decreases characters@.len() - i,
    {
        let c = &characters[i];
        push_padded(&mut out, c.name.as_str(), 15, ' ');
        push_char_str(&mut out, ' ');
        push_padded(&mut out, c.class.as_str(), 15, ' ');
        out.append(" -> ");
        push_decimal_padded(&mut out, c.item_level, 5);
        out.append(" ilvl \n");
        assert(characters@.take(i + 1).drop_last() =~= characters@.take(i as int));
        assert(out@ =~= "```"@ + listing_header() + character_lines(characters@.take(i + 1)));
        i = i + 1;
    }
    assert(characters@.take(i as int) =~= characters@);
    out.append("```");
    out
}

} // verus!

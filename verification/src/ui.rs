//! The command-line interface: its arguments, the item table, item
//! selection and the texts shown while playing.

use vstd::prelude::*;
use vstd::utf8::encode_utf8;
use crate::jellyfin::models::MediaItem;
use crate::text::{decimal, decimal_string, owned, trim_whitespace, trimmed};
use vstd::string::{StrSliceExecFns, StringExecFns};

verus! {

/// Command-line arguments.
#[derive(Debug, Clone, PartialEq)]
pub struct Args {
    /// Jellyfin server URL.
    pub server_url: Option<String>,
    /// Jellyfin API key.
    pub api_key: Option<String>,
    /// Username for Jellyfin login.
    pub username: Option<String>,
    /// Password for Jellyfin login.
    pub password: Option<String>,
    /// ALSA device to use.
    pub alsa_device: String,
    /// Config file path.
    pub config: Option<String>,
}

/// The command-line user interface.
#[derive(Debug, Clone)]
pub struct Cli {
    pub args: Args,
}

/// The value of a string of decimal digits.
pub open spec fn digits_value(s: Seq<char>) -> nat
    decreases s.len(),
{
    if s.len() == 0 {
        0
    } else {
        digits_value(s.drop_last()) * 10 + (s.last() as nat - 48) as nat
    }
}

/// Whether every character of `s` is a decimal digit.
pub open spec fn all_digits(s: Seq<char>) -> bool {
    forall|i: int| 0 <= i < s.len() ==> '0' <= #[trigger] s[i] <= '9'
}

/// The digits of an unsigned decimal literal: `s` without one leading `+`.
pub open spec fn unsigned_digits(s: Seq<char>) -> Seq<char> {
    if s.len() > 0 && s[0] == '+' {
        s.drop_first()
    } else {
        s
    }
}

/// Whether `s` is an unsigned decimal literal whose value fits a `usize`.
pub open spec fn parses_as_usize(s: Seq<char>) -> bool {
    let d = unsigned_digits(s);
    d.len() > 0 && all_digits(d) && digits_value(d) <= usize::MAX
}

/// The message for an empty number.
pub const EMPTY_NUMBER: &'static str = "cannot parse integer from empty string";

/// The message for a character that is not a digit.
pub const INVALID_DIGIT: &'static str = "invalid digit found in string";

/// The message for a number that does not fit.
pub const NUMBER_TOO_LARGE: &'static str = "number too large to fit in target type";

proof fn lemma_prefix_value_bounded(t: Seq<char>, j: int)
    requires
        all_digits(t),
        0 <= j <= t.len(),
    ensures
        digits_value(t.subrange(0, j)) <= digits_value(t),
    decreases t.len(),
{
    if j < t.len() {
        let u = t.drop_last();
        assert(u.subrange(0, j) =~= t.subrange(0, j));
        lemma_prefix_value_bounded(u, j);
    } else {
        assert(t.subrange(0, j) =~= t);
    }
}

/// Reads an unsigned decimal number: an optional `+`, then digits only,
/// with a value that fits a `usize` (as `str::parse::<usize>` does). An
/// empty string, a character that is not a digit and a value that does not
/// fit each have their message; the first problem from the left decides.
pub fn parse_usize(s: &str) -> (r: Result<usize, String>)
    ensures
        r is Ok <==> parses_as_usize(s@),
        r matches Ok(n) ==> n as nat == digits_value(unsigned_digits(s@)),
        s@.len() == 0 ==> (r matches Err(m) && m@ == EMPTY_NUMBER@),
        r matches Err(m) ==> m@ == EMPTY_NUMBER@ || m@ == INVALID_DIGIT@ || m@ == NUMBER_TOO_LARGE@,
{
    let n = s.unicode_len();
    if n == 0 {
        return Err(owned(EMPTY_NUMBER));
    }
    let start: usize = if s.get_char(0) == '+' {
        1
    } else {
        0
    };
    let ghost d = s@.subrange(start as int, n as int);
    proof {
        if start == 0 {
            assert(d =~= s@);
        } else {
            assert(d =~= s@.drop_first());
        }
        assert(unsigned_digits(s@) == d);
    }
    if start == n {
        return Err(owned(INVALID_DIGIT));
    }
    let mut acc: usize = 0;
    let mut k: usize = start;
    proof {
        assert(s@.subrange(start as int, k as int) =~= Seq::<char>::empty());
    }
    while k < n
        invariant
            start <= k <= n,
            n == s@.len(),
            d == s@.subrange(start as int, n as int),
            unsigned_digits(s@) == d,
            all_digits(s@.subrange(start as int, k as int)),
            acc as nat == digits_value(s@.subrange(start as int, k as int)),
        decreases n - k,
    {
        let c = s.get_char(k);
        let ghost pre = s@.subrange(start as int, k as int);
        let ghost next = s@.subrange(start as int, k + 1);
        proof {
            assert(next.drop_last() =~= pre);
            assert(next.last() == c);
            assert(d[k - start] == c);
        }
        if !('0' <= c && c <= '9') {
            proof {
                let j = k - start;
                assert(!('0' <= d[j] <= '9'));
            }
            return Err(owned(INVALID_DIGIT));
        }
        let digit: usize = (c as u32 - 48) as usize;
        assert(digits_value(next) == acc * 10 + digit);
        let value = match acc.checked_mul(10) {
            None => None,
            Some(m) => m.checked_add(digit),
        };
        match value {
            None => {
                proof {
                    if all_digits(d) {
                        assert(d.subrange(0, k + 1 - start) =~= next);
                        lemma_prefix_value_bounded(d, k + 1 - start);
                        assert(digits_value(next) > usize::MAX);
                    }
                }
                return Err(owned(NUMBER_TOO_LARGE));
            },
            Some(v) => {
                proof {
                    assert forall|i: int| 0 <= i < next.len() implies '0' <= #[trigger] next[i]
                        <= '9' by {
                        if i < pre.len() {
                            assert(next[i] == pre[i]);
                        }
                    }
                }
                acc = v;
            },
        }
        k = k + 1;
    }
    Ok(acc)
}

/// The width of the number column of the item table.
pub const NUMBER_WIDTH: usize = 5;

/// The width of the name column of the item table.
pub const NAME_WIDTH: usize = 30;

/// The width of the type column of the item table.
pub const TYPE_WIDTH: usize = 15;

/// `s` padded with spaces on the right to `w` characters.
pub open spec fn pad_right(s: Seq<char>, w: nat) -> Seq<char> {
    if s.len() >= w {
        s
    } else {
        s + Seq::new((w - s.len()) as nat, |i: int| ' ')
    }
}

fn pad(s: &str, w: usize) -> (r: String)
    ensures
        r@ == pad_right(s@, w as nat),
{
    let mut r = owned(s);
    let n = s.unicode_len();
    if n >= w {
        return r;
    }
    let mut k: usize = n;
    proof {
        assert(r@ =~= s@ + Seq::new(0nat, |i: int| ' '));
    }
    while k < w
        invariant
            n <= k <= w,
            n == s@.len(),
            r@ =~= s@ + Seq::new((k - n) as nat, |i: int| ' '),
        decreases w - k,
    {
        proof {
            reveal_strlit(" ");
        }
        r.append(" ");
        proof {
            assert(r@ =~= s@ + Seq::new((k + 1 - n) as nat, |i: int| ' '));
        }
        k = k + 1;
    }
    r
}

/// The name shown for an item: a name longer than 28 bytes (its UTF-8
/// length, which a string in memory always has as a `usize`) is cut to its
/// first 25 characters and marked with an ellipsis.
pub open spec fn shown_name(name: Seq<char>) -> Seq<char> {
    if encode_utf8(name).len() as usize > 28 {
        name.subrange(0, if name.len() < 25 {
            name.len() as int
        } else {
            25
        }) + "..."@
    } else {
        name
    }
}

/// The name shown for an item in the table.
pub fn display_name(name: &str) -> (r: String)
    ensures
        r@ == shown_name(name@),
{
    if name.len() > 28 {
        let n = name.unicode_len();
        let k: usize = if n < 25 {
            n
        } else {
            25
        };
        let mut r = owned(name.substring_char(0, k));
        r.append("...");
        r
    } else {
        owned(name)
    }
}

/// The table row of the item at zero-based `index`: its number from 1, its
/// shown name, its type and its id, in padded columns.
pub open spec fn item_row(index: nat, item: MediaItem) -> Seq<char> {
    pad_right(decimal(index + 1), NUMBER_WIDTH as nat) + " "@ + pad_right(
        shown_name(item.name@),
        NAME_WIDTH as nat,
    ) + " "@ + pad_right(item.media_type@, TYPE_WIDTH as nat) + " "@ + item.id@
}

/// The header row of the item table.
pub open spec fn header_row() -> Seq<char> {
    pad_right("#"@, NUMBER_WIDTH as nat) + " "@ + pad_right("Name"@, NAME_WIDTH as nat) + " "@
        + pad_right("Type"@, TYPE_WIDTH as nat) + " "@ + "ID"@
}

/// The separator under the header: 80 dashes.
pub open spec fn rule_row() -> Seq<char> {
    Seq::new(80, |i: int| '-')
}

/// The lines of the item table: a title, the header, the rule, one row per
/// item, then an empty line.
pub open spec fn item_table(items: Seq<MediaItem>) -> Seq<Seq<char>> {
    seq!["\nAvailable Media Items:"@, header_row(), rule_row()] + Seq::new(
        items.len(),
        |i: int| item_row(i as nat, items[i]),
    ) + seq![Seq::<char>::empty()]
}

fn row_text(index: usize, item: &MediaItem) -> (r: String)
    requires
        index < usize::MAX,
    ensures
        r@ == item_row(index as nat, *item),
{
    let number = decimal_string((index + 1) as u64);
    let mut r = pad(number.as_str(), NUMBER_WIDTH);
    r.append(" ");
    let name = display_name(item.name.as_str());
    let name_col = pad(name.as_str(), NAME_WIDTH);
    r.append(name_col.as_str());
    r.append(" ");
    let type_col = pad(item.media_type.as_str(), TYPE_WIDTH);
    r.append(type_col.as_str());
    r.append(" ");
    r.append(item.id.as_str());
    r
}

fn rule_text() -> (r: String)
    ensures
        r@ == rule_row(),
{
    let mut r = String::new();
    let mut k: usize = 0;
    while k < 80
        invariant
            k <= 80,
            r@ =~= Seq::new(k as nat, |i: int| '-'),
        decreases 80 - k,
    {
        proof {
            reveal_strlit("-");
        }
        r.append("-");
        k = k + 1;
    }
    r
}

impl Cli {
    /// A command-line interface over the parsed arguments.
    pub fn new(args: Args) -> (c: Cli)
        ensures
            c.args == args,
    {
        Cli { args }
    }

    /// The lines that list the items, numbered from 1.
    pub fn display_items(&self, items: &Vec<MediaItem>) -> (lines: Vec<String>)
        requires
            items@.len() < usize::MAX,
        ensures
            lines@.len() == items@.len() + 4,
            forall|i: int| 0 <= i < lines@.len() ==> #[trigger] lines@[i]@ == item_table(items@)[i],
            lines@[0]@ == "\nAvailable Media Items:"@,
            lines@[1]@ == header_row(),
            lines@[2]@ == rule_row(),
            forall|i: int|
                0 <= i < items@.len() ==> #[trigger] lines@[i + 3]@ == item_row(i as nat, items@[i]),
            lines@[items@.len() + 3int]@.len() == 0,
    {
        let mut lines: Vec<String> = Vec::new();
        lines.push(owned("\nAvailable Media Items:"));
        let mut header = pad("#", NUMBER_WIDTH);
        header.append(" ");
        header.append(pad("Name", NAME_WIDTH).as_str());
        header.append(" ");
        header.append(pad("Type", TYPE_WIDTH).as_str());
        header.append(" ");
        header.append("ID");
        lines.push(header);
        lines.push(rule_text());
        let mut i: usize = 0;
        while i < items.len()
            invariant
                i <= items@.len(),
                items@.len() < usize::MAX,
                lines@.len() == i + 3,
                forall|j: int| 0 <= j < i + 3 ==> #[trigger] lines@[j]@ == item_table(items@)[j],
            decreases items@.len() - i,
        {
            let row = row_text(i, &items[i]);
            lines.push(row);
            i = i + 1;
        }
        lines.push(String::new());
        proof {
            assert forall|i: int| 0 <= i < items@.len() implies #[trigger] lines@[i + 3]@ == item_row(
                i as nat,
                items@[i],
            ) by {
                lemma_table_row(items@, i);
            }
            lemma_table_row(items@, 0);
        }
        lines
    }

    /// Picks an item from what the user typed: the empty list has nothing
    /// to pick; otherwise the trimmed input must be a number from 1 to the
    /// item count, and the item's zero-based index is returned.
    pub fn select_item(&self, count: usize, input: &str) -> (r: Result<usize, String>)
        ensures
            count == 0 ==> (r matches Err(m) && m@ == "No items available"@),
            count > 0 ==> {
                let t = trimmed(input@);
                if !parses_as_usize(t) {
                    r is Err
                } else {
                    let n = digits_value(unsigned_digits(t));
                    if 1 <= n <= count {
                        r == Ok::<usize, String>((n - 1) as usize)
                    } else {
                        r matches Err(m) && m@
                            == "Invalid selection. Please enter a number between 1 and "@ + decimal(
                            count as nat,
                        )
                    }
                }
            },
    {
        if count == 0 {
            return Err(owned("No items available"));
        }
        let t = trim_whitespace(input);
        let n = parse_usize(t.as_str())?;
        if n < 1 || n > count {
            let mut m = owned("Invalid selection. Please enter a number between 1 and ");
            m.append(decimal_string(count as u64).as_str());
            return Err(m);
        }
        Ok(n - 1)
    }

    /// Whether the user name has to be asked for.
    pub fn needs_username(&self) -> (r: bool)
        ensures
            r == self.args.username is None,
    {
        self.args.username.is_none()
    }

    /// Whether the password has to be asked for.
    pub fn needs_password(&self) -> (r: bool)
        ensures
            r == self.args.password is None,
    {
        self.args.password.is_none()
    }

    /// The user name and password: each from the arguments when given,
    /// else what the user typed, trimmed.
    pub fn get_credentials(&self, typed_username: &str, typed_password: &str) -> (r: (
        String,
        String,
    ))
        ensures
            r.0@ == match self.args.username {
                Some(u) => u@,
                None => trimmed(typed_username@),
            },
            r.1@ == match self.args.password {
                Some(p) => p@,
                None => trimmed(typed_password@),
            },
    {
        let username = match &self.args.username {
            Some(u) => u.clone(),
            None => trim_whitespace(typed_username),
        };
        let password = match &self.args.password {
            Some(p) => p.clone(),
            None => trim_whitespace(typed_password),
        };
        (username, password)
    }

    /// The lines shown when an item starts playing: its name, its type, its
    /// overview when it has one, and how to stop.
    pub fn display_playback_status(&self, item: &MediaItem) -> (lines: Vec<String>)
        ensures
            lines@.len() == if item.overview is Some {
                4int
            } else {
                3int
            },
            lines@[0]@ == "\nNow playing: "@ + item.name@,
            lines@[1]@ == "Type: "@ + item.media_type@,
            item.overview matches Some(o) ==> lines@[2]@ == "\nOverview: "@ + o@,
            lines@.last()@ == "\nPress Ctrl+C to stop playback"@,
    {
        let mut lines: Vec<String> = Vec::new();
        lines.push(crate::text::concat2("\nNow playing: ", item.name.as_str()));
        lines.push(crate::text::concat2("Type: ", item.media_type.as_str()));
        match &item.overview {
            Some(o) => lines.push(crate::text::concat2("\nOverview: ", o.as_str())),
            None => {},
        }
        lines.push(owned("\nPress Ctrl+C to stop playback"));
        lines
    }
}

} // verus!

verus! {

proof fn lemma_decimal_digits(n: nat)
    ensures
        decimal(n).len() > 0,
        all_digits(decimal(n)),
        decimal(n)[0] != '+',
        digits_value(decimal(n)) == n,
    decreases n,
{
    if n < 10 {
        assert(crate::text::digit_char(n) as nat == 48 + n);
        assert(decimal(n).drop_last() =~= Seq::<char>::empty());
        assert(digits_value(decimal(n)) == digits_value(decimal(n).drop_last()) * 10 + (decimal(n).last() as nat - 48) as nat);
    } else {
        lemma_decimal_digits(n / 10);
        let d = decimal(n / 10) + seq![crate::text::digit_char(n % 10)];
        assert(d.drop_last() =~= decimal(n / 10));
        assert(crate::text::digit_char(n % 10) as nat == 48 + n % 10);
        assert((n / 10) * 10 + n % 10 == n) by (nonlinear_arith);
        assert(d.last() == crate::text::digit_char(n % 10));
        assert(digits_value(d) == digits_value(d.drop_last()) * 10 + (d.last() as nat - 48) as nat);
        assert(decimal(n) == d);
        assert forall|i: int| 0 <= i < d.len() implies '0' <= #[trigger] d[i] <= '9' by {
            if i < d.len() - 1 {
                assert(d[i] == decimal(n / 10)[i]);
            }
        }
    }
}

/// The number shown before an item in the table, typed back, selects that
/// item: the row number of zero-based `index` reads as a valid selection
/// whose value is `index + 1`.
pub proof fn lemma_row_number_selects(index: nat, count: nat)
    requires
        index < count,
    ensures
        parses_as_usize(decimal(index + 1)) <==> index + 1 <= usize::MAX,
        digits_value(unsigned_digits(decimal(index + 1))) == index + 1,
        1 <= index + 1 <= count,
{
    lemma_decimal_digits(index + 1);
    assert(unsigned_digits(decimal(index + 1)) == decimal(index + 1));
}

} // verus!

verus! {

/// The item table lists the items in order: after the title, header and
/// rule, the line of item `i` shows that item beside the number `i + 1`,
/// and the table ends with an empty line.
pub proof fn lemma_table_row(items: Seq<MediaItem>, i: int)
    ensures
        item_table(items).len() == items.len() + 4,
        item_table(items)[0] == "\nAvailable Media Items:"@,
        item_table(items)[1] == header_row(),
        item_table(items)[2] == rule_row(),
        0 <= i < items.len() ==> item_table(items)[i + 3] == item_row(i as nat, items[i]),
        item_table(items)[items.len() + 3int].len() == 0,
{
}

/// The line of item `i` begins with its number `i + 1`, padded, and ends
/// with that item's id: the number typed to select it names this item.
pub proof fn lemma_row_shows_its_item(i: nat, item: MediaItem)
    ensures
        item_row(i, item).subrange(0, pad_right(decimal(i + 1), NUMBER_WIDTH as nat).len() as int)
            == pad_right(decimal(i + 1), NUMBER_WIDTH as nat),
        item_row(i, item).subrange(
            item_row(i, item).len() - item.id@.len(),
            item_row(i, item).len() as int,
        ) == item.id@,
{
    let row = item_row(i, item);
    let a = pad_right(decimal(i + 1), NUMBER_WIDTH as nat);
    let b = " "@ + pad_right(shown_name(item.name@), NAME_WIDTH as nat) + " "@ + pad_right(
        item.media_type@,
        TYPE_WIDTH as nat,
    ) + " "@;
    assert(row =~= a + b + item.id@);
    assert(row.subrange(0, a.len() as int) =~= a);
    assert(row.subrange(row.len() - item.id@.len(), row.len() as int) =~= item.id@);
}

} // verus!

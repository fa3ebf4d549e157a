//! Snapshot naming and encoding: the process-wide counter that numbers the
//! saved files `save0.png`, `save1.png`, ... without gaps, the window titles,
//! and the PNG encoding of a read-back frame.

use vstd::prelude::*;
use vstd::string::StringExecFns;

verus! {

/// The decimal digit character for `n` < 10.
pub open spec fn digit(n: nat) -> char {
    if n == 0 {
        '0'
    } else if n == 1 {
        '1'
    } else if n == 2 {
        '2'
    } else if n == 3 {
        '3'
    } else if n == 4 {
        '4'
    } else if n == 5 {
        '5'
    } else if n == 6 {
        '6'
    } else if n == 7 {
        '7'
    } else if n == 8 {
        '8'
    } else {
        '9'
    }
}

/// The decimal notation of `n`, most significant digit first, no leading
/// zeros (a single `'0'` for zero).
pub open spec fn decimal(n: nat) -> Seq<char>
    decreases n,
{
    if n < 10 {
        seq![digit(n)]
    } else {
        decimal(n / 10).push(digit(n % 10))
    }
}

/// The file name of the snapshot numbered `n`.
pub open spec fn save_name(n: nat) -> Seq<char> {
    "save"@ + decimal(n) + ".png"@
}

/// The title of the window at position `n`.
pub open spec fn window_title_of(n: nat) -> Seq<char> {
    "Shady Image "@ + decimal(n)
}

proof fn lemma_decimal_len(n: nat)
    ensures
        decimal(n).len() >= 1,
        n >= 10 ==> decimal(n).len() >= 2,
    decreases n,
{
    if n >= 10 {
        lemma_decimal_len(n / 10);
    }
}

/// Distinct numbers have distinct decimal notations.
pub proof fn lemma_decimal_injective(a: nat, b: nat)
    requires
        decimal(a) == decimal(b),
    ensures
        a == b,
    decreases a,
{
    lemma_decimal_len(a);
    lemma_decimal_len(b);
    if a < 10 && b < 10 {
        assert(decimal(a)[0] == digit(a));
        assert(decimal(b)[0] == digit(b));
    } else if a >= 10 && b >= 10 {
        assert(decimal(a).last() == digit((a % 10) as nat));
        assert(decimal(b).last() == digit((b % 10) as nat));
        assert(decimal(a).drop_last() =~= decimal((a / 10) as nat));
        assert(decimal(b).drop_last() =~= decimal((b / 10) as nat));
        lemma_decimal_injective((a / 10) as nat, (b / 10) as nat);
        assert(a == 10 * (a / 10) + a % 10) by {
            vstd::arithmetic::div_mod::lemma_fundamental_div_mod(a as int, 10);
        }
        assert(b == 10 * (b / 10) + b % 10) by {
            vstd::arithmetic::div_mod::lemma_fundamental_div_mod(b as int, 10);
        }
    } else {
        assert(decimal(a).len() != decimal(b).len());
    }
}

/// Distinct snapshot numbers give distinct file names: no snapshot ever
/// overwrites an earlier one.
pub proof fn lemma_save_names_distinct(a: nat, b: nat)
    requires
        a != b,
    ensures
        save_name(a) != save_name(b),
{
    if save_name(a) == save_name(b) {
        reveal_strlit("save");
        reveal_strlit(".png");
        let da = decimal(a);
        let db = decimal(b);
        assert(save_name(a).len() == 4 + da.len() + 4);
        assert(save_name(b).len() == 4 + db.len() + 4);
        assert(da.len() == db.len());
        assert forall|i: int| 0 <= i < da.len() implies da[i] == db[i] by {
            assert(save_name(a)[4 + i] == da[i]);
            assert(save_name(b)[4 + i] == db[i]);
        }
        assert(da =~= db);
        lemma_decimal_injective(a, b);
        assert(false);
    }
}

/// Relies on `String::push`: appends the given character to the end of the
/// string, changing nothing else.
#[verifier::external_body]
fn push_char(s: &mut String, c: char)
    ensures
        final(s)@ == old(s)@ + seq![c],
{
    s.push(c);
}

fn digit_char(n: u64) -> (c: char)
    requires
        n < 10,
    ensures
        c == digit(n as nat),
{
    if n == 0 {
        '0'
    } else if n == 1 {
        '1'
    } else if n == 2 {
        '2'
    } else if n == 3 {
        '3'
    } else if n == 4 {
        '4'
    } else if n == 5 {
        '5'
    } else if n == 6 {
        '6'
    } else if n == 7 {
        '7'
    } else if n == 8 {
        '8'
    } else {
        '9'
    }
}

fn push_decimal(s: &mut String, n: u64)
    ensures
        final(s)@ == old(s)@ + decimal(n as nat),
    decreases n,
{
    if n < 10 {
        push_char(s, digit_char(n));
    } else {
        push_decimal(s, n / 10);
        push_char(s, digit_char(n % 10));
        assert(final(s)@ == old(s)@ + decimal(n as nat)) by {
            assert(old(s)@ + decimal((n / 10) as nat) + seq![digit((n % 10) as nat)]
                =~= old(s)@ + decimal(n as nat));
        }
    }
}

/// The decimal notation of `n` as an executable string.
pub fn decimal_string(n: u64) -> (r: String)
    ensures
        r@ == decimal(n as nat),
{
    let mut r = String::new();
    push_decimal(&mut r, n);
    assert(r@ =~= decimal(n as nat));
    r
}

/// The title shown on the window at position `index`.
pub fn window_title(index: u64) -> (r: String)
    ensures
        r@ == window_title_of(index as nat),
{
    let mut r = <String as StringExecFns>::from_str("Shady Image ");
    push_decimal(&mut r, index);
    r
}

/// Numbers the snapshots taken over the lifetime of the process: starts at
/// zero and increases by exactly one per snapshot, across all windows.
pub struct SaveCounter {
    taken: u64,
}

impl SaveCounter {
    /// How many snapshots were taken so far.
    pub closed spec fn spec_taken(&self) -> u64 {
        self.taken
    }

    pub fn new() -> (r: SaveCounter)
        ensures
            r.spec_taken() == 0,
    {
        SaveCounter { taken: 0 }
    }

    pub fn taken(&self) -> (r: u64)
        ensures
            r == self.spec_taken(),
    {
        self.taken
    }

    /// The file name for the next snapshot: `save<N>.png` where `N` counts
    /// the snapshots already taken, so the numbers are gap-free and strictly
    /// increasing for the lifetime of the counter.
    pub fn next_name(&mut self) -> (r: String)
        requires
            old(self).spec_taken() < u64::MAX,
        ensures
            final(self).spec_taken() == old(self).spec_taken() + 1,
            r@ == save_name(old(self).spec_taken() as nat),
    {
        let mut r = <String as StringExecFns>::from_str("save");
        push_decimal(&mut r, self.taken);
        r.append(".png");
        assert(r@ =~= save_name(self.taken as nat));
        self.taken = self.taken + 1;
        r
    }
}

/// What `imagefmt`'s PNG encoder produces for an RGBA frame of the given
/// size: a fixed function of the dimensions and the pixel bytes alone.
pub uninterp spec fn png_of(width: int, height: int, pixels: Seq<u8>) -> Seq<u8>;

/// Relies on `imagefmt::png::write`: encodes a tightly packed RGBA pixel
/// buffer of the given non-zero dimensions into PNG bytes, deterministically
/// from its arguments; with those arguments it reports no error when writing
/// into a growable byte buffer.
#[verifier::external_body]
fn encode_png_rgba(width: u32, height: u32, pixels: &Vec<u8>) -> (r: Vec<u8>)
    requires
        1 <= width,
        1 <= height,
        pixels@.len() == 4 * width * height,
    ensures
        r@ == png_of(width as int, height as int, pixels@),
{
    let mut out: Vec<u8> = Vec::new();
    imagefmt::png::write(
        &mut out,
        width as usize,
        height as usize,
        imagefmt::ColFmt::RGBA,
        pixels,
        imagefmt::ColType::Auto,
        None,
    ).unwrap();
    out
}

/// Encodes one snapshot and takes its file name from the counter: the caller
/// writes the returned bytes to the returned name. Each call consumes one
/// number, so every snapshot of the process gets a distinct, gap-free name.
pub fn snapshot_png(counter: &mut SaveCounter, width: u32, height: u32, pixels: &Vec<u8>) -> (r: (
    String,
    Vec<u8>,
))
    requires
        1 <= width,
        1 <= height,
        pixels@.len() == 4 * width * height,
        old(counter).spec_taken() < u64::MAX,
    ensures
        final(counter).spec_taken() == old(counter).spec_taken() + 1,
        r.0@ == save_name(old(counter).spec_taken() as nat),
        r.1@ == png_of(width as int, height as int, pixels@),
{
    let name = counter.next_name();
    let bytes = encode_png_rgba(width, height, pixels);
    (name, bytes)
}

} // verus!

//! Identifiers for node instances: serial numbers in hexadecimal, counted on
//! from a first number that the system clock gives.
//!
//! A generator hands out every serial number once before it hands out any
//! number again, so the nodes that draw from one generator all differ.

use crate::text::{hex_digits, lemma_hex_digits_differ, to_hex};
use std::time::{Duration, SystemTime, SystemTimeError, UNIX_EPOCH};
use vstd::prelude::*;

verus! {

/// `std::time::SystemTime`, a reading of the system clock. Nothing inside it
/// is visible here.
#[verifier::external_type_specification]
#[verifier::external_body]
pub struct ExSystemTime(SystemTime);

/// `std::time::SystemTimeError`, the error of a measurement that would be
/// negative. Nothing inside it is visible here.
#[verifier::external_type_specification]
#[verifier::external_body]
pub struct ExSystemTimeError(SystemTimeError);

/// `SystemTime::now` reads the system clock; nothing is claimed of the reading.
pub assume_specification[ SystemTime::now ]() -> SystemTime;

/// `Duration::as_nanos` gives a duration in whole nanoseconds; nothing is
/// claimed of the number.
pub assume_specification[ Duration::as_nanos ](this: &Duration) -> u128;

/// `SystemTime::duration_since`, measured from the constant `UNIX_EPOCH`: the
/// time from the start of 1970 to `reading`, or an error when `reading` lies
/// before 1970. Nothing is claimed of which, nor of the length.
#[verifier::external_body]
fn since_unix_epoch(reading: &SystemTime) -> Result<Duration, SystemTimeError> {
    reading.duration_since(UNIX_EPOCH)
}

/// Nanoseconds from the start of 1970 to the clock's present reading; zero
/// when the clock reads a time before 1970.
fn nanos_since_epoch() -> u128 {
    let reading = SystemTime::now();
    let measured = match since_unix_epoch(&reading) {
        Ok(elapsed) => Some(elapsed.as_nanos()),
        Err(_) => None,
    };
    nanos_or_zero(measured)
}

/// The number that a measurement from the start of 1970 counts for: its
/// nanoseconds, and zero where the clock read a time before 1970, so that
/// there is no measurement.
pub fn nanos_or_zero(measured: Option<u128>) -> (nanos: u128)
    ensures
        nanos == match measured {
            Some(elapsed) => elapsed,
            None => 0,
        },
{
    match measured {
        Some(elapsed) => elapsed,
        None => 0,
    }
}

/// How many serial numbers there are: one for every 128-bit number.
pub open spec fn serial_count() -> nat {
    u128::MAX as nat + 1
}

/// The serial number that follows a given one: one more, or zero after the
/// largest.
pub open spec fn following(serial: u128) -> u128 {
    if serial == u128::MAX {
        0
    } else {
        (serial + 1) as u128
    }
}

/// What an `IdGenerator` holds: the serial number it hands out next, and how
/// many it has handed out so far.
pub struct IdGeneratorView {
    pub next: u128,
    pub drawn: nat,
}

impl IdGeneratorView {
    /// The serial number of a draw, counted from the next one: zero is the
    /// next draw, one the draw after it, minus one the last draw made. The
    /// numbers run round: after the largest comes zero.
    pub open spec fn serial(self, draw: int) -> u128 {
        ((self.next + draw) % (serial_count() as int)) as u128
    }

    /// The serial numbers handed out so far: those of the draws made.
    pub open spec fn issued(self) -> Set<u128> {
        Set::new(
            |serial: u128|
                exists|draw: int|
                    -self.drawn <= draw < 0 && #[trigger] self.serial(draw) == serial,
        )
    }

    /// Whether the generator has been through all the serial numbers there
    /// are, so that its next draw repeats an earlier one.
    pub open spec fn spent(self) -> bool {
        self.drawn >= serial_count()
    }

    /// The generator after one more draw.
    pub open spec fn after_draw(self) -> IdGeneratorView {
        IdGeneratorView { next: following(self.next), drawn: self.drawn + 1 }
    }
}

/// Two draws of one generator that lie fewer draws apart than there are
/// serial numbers have different serial numbers, and so different
/// identifiers.
pub proof fn lemma_draws_differ(ids: IdGeneratorView, earlier: int, later: int)
    requires
        earlier < later,
        later - earlier < serial_count(),
    ensures
        ids.serial(earlier) != ids.serial(later),
        hex_digits(ids.serial(earlier) as nat) != hex_digits(ids.serial(later) as nat),
{
    let count = serial_count() as int;
    let low = ids.next + earlier;
    let high = ids.next + later;
    if low % count == high % count {
        vstd::arithmetic::div_mod::lemma_fundamental_div_mod(low, count);
        vstd::arithmetic::div_mod::lemma_fundamental_div_mod(high, count);
        let gap = high / count - low / count;
        assert(later - earlier == count * gap) by (nonlinear_arith)
            requires
                low == count * (low / count) + low % count,
                high == count * (high / count) + high % count,
                low % count == high % count,
                gap == high / count - low / count,
                later - earlier == high - low,
        ;
        assert(false) by (nonlinear_arith)
            requires
                0 < later - earlier < count,
                later - earlier == count * gap,
        ;
    }
    lemma_hex_digits_differ(ids.serial(earlier) as nat, ids.serial(later) as nat);
}

/// One draw shifts the count of the draws by one: what was the draw after
/// the next is now the next, and what was the next is now the last one made.
pub proof fn lemma_draw_shifts(ids: IdGeneratorView, draw: int)
    ensures
        ids.serial(0) == ids.next,
        ids.after_draw().serial(draw) == ids.serial(draw + 1),
{
    let count = serial_count() as int;
    vstd::arithmetic::div_mod::lemma_small_mod(ids.next as nat, count as nat);
    if ids.next == u128::MAX {
        vstd::arithmetic::div_mod::lemma_mod_add_multiples_vanish(draw, count);
    }
}

/// A generator that has not been through all the serial numbers has not yet
/// handed out the number that comes next, nor any number with the same
/// identifier.
pub proof fn lemma_next_is_fresh(ids: IdGeneratorView)
    requires
        !ids.spent(),
    ensures
        !ids.issued().contains(ids.next),
        forall|serial: u128|
            ids.issued().contains(serial) ==> #[trigger] hex_digits(serial as nat) != hex_digits(
                ids.next as nat,
            ),
{
    lemma_draw_shifts(ids, 0);
    assert forall|serial: u128| ids.issued().contains(serial) implies serial != ids.next
        && #[trigger] hex_digits(serial as nat) != hex_digits(ids.next as nat) by {
        let draw = choose|draw: int|
            -ids.drawn <= draw < 0 && #[trigger] ids.serial(draw) == serial;
        lemma_draws_differ(ids, draw, 0);
    }
}

/// Each draw adds the serial number it hands out to those handed out. The
/// number that follows is another number, with another identifier.
pub proof fn lemma_draw_moves_on(ids: IdGeneratorView)
    ensures
        ids.after_draw().issued() == ids.issued().insert(ids.next),
        hex_digits(ids.after_draw().next as nat) != hex_digits(ids.next as nat),
{
    let after = ids.after_draw();
    assert forall|serial: u128|
        after.issued().contains(serial) <==> ids.issued().insert(ids.next).contains(
            serial,
        ) by {
        if after.issued().contains(serial) {
            let draw = choose|draw: int|
                -after.drawn <= draw < 0 && #[trigger] after.serial(draw) == serial;
            lemma_draw_shifts(ids, draw);
            if draw < -1 {
                assert(ids.serial(draw + 1) == serial);
            }
        }
        if ids.issued().contains(serial) {
            let draw = choose|draw: int|
                -ids.drawn <= draw < 0 && #[trigger] ids.serial(draw) == serial;
            lemma_draw_shifts(ids, draw - 1);
            assert(after.serial(draw - 1) == serial);
        }
        if serial == ids.next {
            lemma_draw_shifts(ids, -1);
            assert(after.serial(-1) == serial);
        }
    }
    assert(after.issued() =~= ids.issued().insert(ids.next));
    lemma_hex_digits_differ(after.next as nat, ids.next as nat);
}

/// A source of identifiers for node instances.
pub struct IdGenerator {
    next: u128,
    drawn: Ghost<nat>,
}

impl View for IdGenerator {
    type V = IdGeneratorView;

    closed spec fn view(&self) -> IdGeneratorView {
        IdGeneratorView { next: self.next, drawn: self.drawn@ }
    }
}

impl IdGenerator {
    /// A generator that begins with the given serial number and has handed
    /// out nothing yet.
    pub fn starting_at(first: u128) -> (ids: IdGenerator)
        ensures
            ids@ == (IdGeneratorView { next: first, drawn: 0 }),
            ids@.issued() == Set::<u128>::empty(),
    {
        let ids = IdGenerator { next: first, drawn: Ghost(0) };
        assert(ids@.issued() =~= Set::<u128>::empty());
        ids
    }

    /// A generator that begins with the clock's nanoseconds since 1970, or
    /// with zero when the clock reads a time before 1970. It has handed out
    /// nothing yet.
    pub fn new() -> (ids: IdGenerator)
        ensures
            ids@.drawn == 0,
            ids@.issued() == Set::<u128>::empty(),
    {
        IdGenerator::starting_at(nanos_since_epoch())
    }

    /// The serial number that is handed out next.
    pub fn peek(&self) -> (serial: u128)
        ensures
            serial == self@.next,
    {
        self.next
    }

    /// Hands out the next serial number and moves on to the one that follows.
    /// The number was not handed out before, unless the generator has been
    /// through all the serial numbers there are.
    pub fn draw(&mut self) -> (serial: u128)
        ensures
            serial == old(self)@.next,
            final(self)@ == old(self)@.after_draw(),
            final(self)@.issued() == old(self)@.issued().insert(serial),
            !old(self)@.spent() ==> !old(self)@.issued().contains(serial),
    {
        proof {
            lemma_draw_moves_on(self@);
            if !self@.spent() {
                lemma_next_is_fresh(self@);
            }
        }
        let serial = self.next;
        self.next = if serial == u128::MAX {
            0
        } else {
            serial + 1
        };
        self.drawn = Ghost(self.drawn@ + 1);
        serial
    }
}

/// A new identifier suffix: the generator's next serial number in
/// hexadecimal. It differs from the suffix of every serial number that the
/// generator handed out before, unless the generator has been through all
/// the serial numbers there are; and it always differs from the suffix that
/// comes next.
pub fn uuid(ids: &mut IdGenerator) -> (id: String)
    ensures
        id@ == hex_digits(old(ids)@.next as nat),
        final(ids)@ == old(ids)@.after_draw(),
        final(ids)@.issued() == old(ids)@.issued().insert(old(ids)@.next),
        hex_digits(final(ids)@.next as nat) != id@,
        !old(ids)@.spent() ==> forall|serial: u128|
            old(ids)@.issued().contains(serial) ==> #[trigger] hex_digits(serial as nat) != id@,
{
    proof {
        lemma_draw_moves_on(ids@);
        if !ids@.spent() {
            lemma_next_is_fresh(ids@);
        }
    }
    to_hex(ids.draw())
}

} // verus!

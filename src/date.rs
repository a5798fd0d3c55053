//! Calendar dates, as the astronomy endpoint takes them.
use vstd::prelude::*;
use crate::text::digits;

verus! {

/// A day of the proleptic Gregorian calendar.
#[derive(Debug, Clone, Copy, PartialEq, Eq)]
pub struct CalendarDate {
    pub year: i32,
    /// 1 to 12.
    pub month: u32,
    /// 1 to 31.
    pub day: u32,
}

/// The digits of `n`, after as many zeros as bring them to `width` characters.
pub open spec fn padded(n: nat, width: nat) -> Seq<char> {
    if digits(n).len() < width {
        Seq::new((width - digits(n).len()) as nat, |_i: int| '0') + digits(n)
    } else {
        digits(n)
    }
}

/// A year as chrono's `%Y` writes it: four digits at least; a minus sign
/// before a negative year and a plus sign before one above 9999.
pub open spec fn year_text(y: int) -> Seq<char> {
    if y < 0 {
        seq!['-'] + padded((-y) as nat, 4)
    } else if y > 9999 {
        seq!['+'] + padded(y as nat, 4)
    } else {
        padded(y as nat, 4)
    }
}

impl CalendarDate {
    pub open spec fn wf(&self) -> bool {
        1 <= self.month <= 12 && 1 <= self.day <= 31
    }

    /// `YYYY-MM-DD`.
    pub open spec fn iso_text(&self) -> Seq<char> {
        year_text(self.year as int) + seq!['-'] + padded(self.month as nat, 2) + seq!['-']
            + padded(self.day as nat, 2)
    }

    /// The date written `YYYY-MM-DD`.
    pub fn to_iso_text(&self) -> (r: String)
        ensures
            r@ == self.iso_text(),
    {
        let mut s = String::new();
        if self.year < 0 {
            s.append("-");
            push_padded(&mut s, (-(self.year as i64)) as u64, 4);
        } else if self.year > 9999 {
            s.append("+");
            push_padded(&mut s, self.year as u64, 4);
        } else {
            push_padded(&mut s, self.year as u64, 4);
        }
        s.append("-");
        push_padded(&mut s, self.month as u64, 2);
        s.append("-");
        push_padded(&mut s, self.day as u64, 2);
        proof {
            reveal_strlit("-");
            reveal_strlit("+");
            assert(s@ =~= self.iso_text());
        }
        s
    }
}

proof fn lemma_digits_len(n: nat)
    ensures
        n < 10 ==> digits(n).len() == 1,
        10 <= n < 100 ==> digits(n).len() == 2,
        100 <= n < 1000 ==> digits(n).len() == 3,
        1000 <= n ==> digits(n).len() >= 4,
    decreases n,
{
    if n >= 10 {
        lemma_digits_len(n / 10);
    }
}

fn push_padded(s: &mut String, n: u64, width: u64)
    requires
        width <= 4,
    ensures
        final(s)@ == old(s)@ + padded(n as nat, width as nat),
{
    proof {
        reveal_strlit("0");
        lemma_digits_len(n as nat);
    }
    let ghost start = s@;
    if width >= 4 && n < 1000 {
        s.append("0");
    }
    if width >= 3 && n < 100 {
        s.append("0");
    }
    if width >= 2 && n < 10 {
        s.append("0");
    }
    let ghost zeros = s@.subrange(start.len() as int, s@.len() as int);
    proof {
        assert(s@ =~= start + zeros);
        let w = width as nat;
        let len = digits(n as nat).len();
        if len < w {
            assert(zeros =~= Seq::new((w - len) as nat, |_i: int| '0'));
        } else {
            assert(zeros =~= Seq::<char>::empty());
        }
    }
    crate::text::push_digits(s, n);
    proof {
        assert(s@ =~= start + padded(n as nat, width as nat));
    }
}

} // verus!

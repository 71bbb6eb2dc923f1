//! Putting the log of the last run aside.
//!
//! Before a run starts its own log, the log of the run before is copied to a
//! file named after the time it was last written. Where that name is taken
//! a number is put behind it, counting up from one. What is decided here is
//! which name to try next and when to stop; creating the files is the
//! host's part.

use vstd::prelude::*;
use vstd::string::*;
use crate::error::KappaError;

verus! {

/// The highest number that is put behind a name.
pub const LAST_NUMBER: u32 = 16;

/// The highest number under which the log is still kept.
pub const LAST_KEPT: u32 = 14;

/// The character of the digit `d`.
pub open spec fn digit(d: nat) -> char
    recommends
        d < 10,
{
    if d == 0 {
        '0'
    } else if d == 1 {
        '1'
    } else if d == 2 {
        '2'
    } else if d == 3 {
        '3'
    } else if d == 4 {
        '4'
    } else if d == 5 {
        '5'
    } else if d == 6 {
        '6'
    } else if d == 7 {
        '7'
    } else if d == 8 {
        '8'
    } else {
        '9'
    }
}

/// A number written in decimal, without leading zeros.
pub open spec fn decimal(n: nat) -> Seq<char>
    decreases n,
{
    if n < 10 {
        seq![digit(n)]
    } else {
        decimal(n / 10).push(digit(n % 10))
    }
}

/// The name of the file that the log last written at `stamp` is put aside
/// in at the `number`-th try: `logs/<stamp>.log` at first, and
/// `logs/<stamp>-<number>.log` after that.
pub open spec fn archive_name(stamp: Seq<char>, number: nat) -> Seq<char> {
    if number == 0 {
        "logs/"@ + stamp + ".log"@
    } else {
        "logs/"@ + stamp + "-"@ + decimal(number) + ".log"@
    }
}

/// A number in decimal has a digit, and two digits from ten on.
pub proof fn decimal_len(n: nat)
    ensures
        decimal(n).len() >= 1,
        n >= 10 ==> decimal(n).len() >= 2,
    decreases n,
{
    if n >= 10 {
        decimal_len(n / 10);
    }
}

/// Two numbers that are written alike are one number.
pub proof fn decimal_is_injective(a: nat, b: nat)
    requires
        decimal(a) == decimal(b),
    ensures
        a == b,
    decreases a,
{
    decimal_len(a);
    decimal_len(b);
    if a < 10 {
        assert(decimal(a)[0] == digit(a));
        assert(decimal(b)[0] == digit(b));
    } else {
        assert(decimal(a).last() == digit(a % 10));
        assert(decimal(b).last() == digit(b % 10));
        assert(decimal(a).drop_last() =~= decimal(a / 10));
        assert(decimal(b).drop_last() =~= decimal(b / 10));
        decimal_is_injective(a / 10, b / 10);
    }
}

/// Every try has a name of its own: the names of two different numbers
/// differ.
pub proof fn archive_names_differ(stamp: Seq<char>, a: nat, b: nat)
    requires
        a != b,
    ensures
        archive_name(stamp, a) != archive_name(stamp, b),
{
    reveal_strlit("logs/");
    reveal_strlit(".log");
    reveal_strlit("-");
    let head = "logs/"@ + stamp;
    let at = head.len() as int;
    if a == 0 || b == 0 {
        let plain = archive_name(stamp, 0);
        let n = if a == 0 { b } else { a };
        let numbered = archive_name(stamp, n);
        assert(plain[at] == '.');
        assert(numbered[at] == '-');
    } else {
        let name_a = archive_name(stamp, a);
        let name_b = archive_name(stamp, b);
        if name_a == name_b {
            assert(name_a.len() == at + 1 + decimal(a).len() + 4);
            assert(name_b.len() == at + 1 + decimal(b).len() + 4);
            assert(decimal(a).len() == decimal(b).len());
            assert(decimal(a) =~= decimal(b)) by {
                assert forall|i: int| 0 <= i < decimal(a).len() implies decimal(a)[i] == decimal(
                    b,
                )[i] by {
                    assert(name_a[at + 1 + i] == decimal(a)[i]);
                    assert(name_b[at + 1 + i] == decimal(b)[i]);
                }
            }
            decimal_is_injective(a, b);
        }
    }
}

fn digit_text(d: u32) -> (text: &'static str)
    requires
        d < 10,
    ensures
        text@ == seq![digit(d as nat)],
{
    proof {
        reveal_strlit("0");
        reveal_strlit("1");
        reveal_strlit("2");
        reveal_strlit("3");
        reveal_strlit("4");
        reveal_strlit("5");
        reveal_strlit("6");
        reveal_strlit("7");
        reveal_strlit("8");
        reveal_strlit("9");
    }
    let text = if d == 0 {
        "0"
    } else if d == 1 {
        "1"
    } else if d == 2 {
        "2"
    } else if d == 3 {
        "3"
    } else if d == 4 {
        "4"
    } else if d == 5 {
        "5"
    } else if d == 6 {
        "6"
    } else if d == 7 {
        "7"
    } else if d == 8 {
        "8"
    } else {
        "9"
    };
    assert(text@ =~= seq![digit(d as nat)]);
    text
}

/// Writes a number in decimal.
pub fn decimal_text(n: u32) -> (text: String)
    ensures
        text@ == decimal(n as nat),
    decreases n,
{
    if n < 10 {
        digit_text(n).to_owned()
    } else {
        let mut text = decimal_text(n / 10);
        text.append(digit_text(n % 10));
        text
    }
}

/// What the host is to do next about the log of the last run.
#[derive(Debug, Clone, PartialEq, Eq)]
pub enum ArchiveStep {
    /// Try to create the file of this name.
    Create(String),
    /// Copy the log into the file that was created last.
    Keep,
    /// Give up.
    GiveUp(KappaError),
}

/// The search for a name under which the log of the last run is put aside.
#[derive(Debug)]
pub struct Archive {
    stamp: String,
    number: u32,
}

impl Archive {
    /// The time the log was last written, as it stands in the names.
    pub closed spec fn stamp(&self) -> Seq<char> {
        self.stamp@
    }

    /// The number of the name that was tried last.
    pub closed spec fn spec_number(&self) -> u32 {
        self.number
    }

    /// No more names are tried than there are numbers.
    pub closed spec fn wf(&self) -> bool {
        self.number <= LAST_NUMBER
    }

    /// Starts the search for a log last written at `stamp`, and gives the
    /// first name to try: the one without a number.
    pub fn start(stamp: &str) -> (started: (Archive, String))
        ensures
            started.0.wf(),
            started.0.stamp() == stamp@,
            started.0.spec_number() == 0,
            started.1@ == archive_name(stamp@, 0),
    {
        let archive = Archive { stamp: stamp.to_owned(), number: 0 };
        let name = archive.name();
        (archive, name)
    }

    /// The name that was tried last.
    pub fn name(&self) -> (name: String)
        ensures
            name@ == archive_name(self.stamp(), self.spec_number() as nat),
    {
        let mut name = "logs/".to_owned();
        name.append(self.stamp.as_str());
        if self.number != 0 {
            name.append("-");
            name.append(decimal_text(self.number).as_str());
        }
        name.append(".log");
        name
    }

    /// The number of the name that was tried last.
    #[verifier::when_used_as_spec(spec_number)]
    pub fn number(&self) -> (number: u32)
        ensures
            number == self.spec_number(),
    {
        self.number
    }

    /// Decides what comes after a try, of which `created` says whether the
    /// file could be created. After a try that failed the next number is
    /// tried, up to the last number. Else the search is over: the log is
    /// kept in the file of the last try if that try had a number up to the
    /// last one under which a log is kept, and else the search is given up,
    /// whether or not the file was created.
    pub fn next(&mut self, created: bool) -> (step: ArchiveStep)
        requires
            old(self).wf(),
        ensures
            final(self).wf(),
            final(self).stamp() == old(self).stamp(),
            if !created && old(self).spec_number() < LAST_NUMBER {
                &&& final(self).spec_number() == old(self).spec_number() + 1
                &&& step matches ArchiveStep::Create(name)
                &&& name@ == archive_name(final(self).stamp(), final(self).spec_number() as nat)
            } else if old(self).spec_number() <= LAST_KEPT {
                &&& final(self).spec_number() == old(self).spec_number()
                &&& step == ArchiveStep::Keep
            } else {
                &&& final(self).spec_number() == old(self).spec_number()
                &&& step matches ArchiveStep::GiveUp(e)
                &&& e@ == "Could not save last log file!"@
            },
    {
        if !created && self.number < LAST_NUMBER {
            self.number = self.number + 1;
            ArchiveStep::Create(self.name())
        } else if self.number > LAST_KEPT {
            ArchiveStep::GiveUp(KappaError::new("Could not save last log file!"))
        } else {
            ArchiveStep::Keep
        }
    }
}

} // verus!

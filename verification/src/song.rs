//! The twelve choruses of a cumulative carol, with their ordinal names
//! and gift phrases.  Printing the song is I/O and lives with the
//! unverified layer around this crate.
use vstd::prelude::*;

verus! {

#[derive(Clone, Copy, Debug, PartialEq, Eq, Structural)]
pub enum Chorus {
    First,
    Second,
    Third,
    Fourth,
    Fifth,
    Sixth,
    Seventh,
    Eight,
    Ninth,
    Tenth,
    Eleventh,
    Twelfth,
}

impl Chorus {
    /// The ordinal word naming this chorus.
    pub open spec fn spec_as_str(self) -> Seq<char> {
        match self {
            Chorus::First => "first"@,
            Chorus::Second => "second"@,
            Chorus::Third => "third"@,
            Chorus::Fourth => "fourth"@,
            Chorus::Fifth => "fifth"@,
            Chorus::Sixth => "sixth"@,
            Chorus::Seventh => "seventh"@,
            Chorus::Eight => "eight"@,
            Chorus::Ninth => "ninth"@,
            Chorus::Tenth => "tenth"@,
            Chorus::Eleventh => "eleventh"@,
            Chorus::Twelfth => "twelfth"@,
        }
    }

    /// The gift phrase this chorus adds to the song.
    pub open spec fn spec_phrase(self) -> Seq<char> {
        match self {
            Chorus::First => "A partridge in a pear tree"@,
            Chorus::Second => "Two turtle doves"@,
            Chorus::Third => "Three French hens"@,
            Chorus::Fourth => "Four calling birds"@,
            Chorus::Fifth => "Five golden rings"@,
            Chorus::Sixth => "Six geese a-laying"@,
            Chorus::Seventh => "Seven swans a-swimming"@,
            Chorus::Eight => "Eight maids a-milking"@,
            Chorus::Ninth => "Nine ladies dancing"@,
            Chorus::Tenth => "Ten lords a-leaping"@,
            Chorus::Eleventh => "Eleven pipers piping"@,
            Chorus::Twelfth => "Twelve drummers drumming"@,
        }
    }

    pub fn as_str(&self) -> (r: &str)
        ensures
            r@ == self.spec_as_str(),
    {
        match self {
            Chorus::First => "first",
            Chorus::Second => "second",
            Chorus::Third => "third",
            Chorus::Fourth => "fourth",
            Chorus::Fifth => "fifth",
            Chorus::Sixth => "sixth",
            Chorus::Seventh => "seventh",
            Chorus::Eight => "eight",
            Chorus::Ninth => "ninth",
            Chorus::Tenth => "tenth",
            Chorus::Eleventh => "eleventh",
            Chorus::Twelfth => "twelfth",
        }
    }

    pub fn phrase(&self) -> (r: &str)
        ensures
            r@ == self.spec_phrase(),
    {
        match self {
            Chorus::First => "A partridge in a pear tree",
            Chorus::Second => "Two turtle doves",
            Chorus::Third => "Three French hens",
            Chorus::Fourth => "Four calling birds",
            Chorus::Fifth => "Five golden rings",
            Chorus::Sixth => "Six geese a-laying",
            Chorus::Seventh => "Seven swans a-swimming",
            Chorus::Eight => "Eight maids a-milking",
            Chorus::Ninth => "Nine ladies dancing",
            Chorus::Tenth => "Ten lords a-leaping",
            Chorus::Eleventh => "Eleven pipers piping",
            Chorus::Twelfth => "Twelve drummers drumming",
        }
    }

    /// All twelve choruses, in singing order.
    pub fn all() -> (r: Vec<Chorus>)
        ensures
            r@ == seq![
                Chorus::First,
                Chorus::Second,
                Chorus::Third,
                Chorus::Fourth,
                Chorus::Fifth,
                Chorus::Sixth,
                Chorus::Seventh,
                Chorus::Eight,
                Chorus::Ninth,
                Chorus::Tenth,
                Chorus::Eleventh,
                Chorus::Twelfth,
            ],
    {
        let mut v: Vec<Chorus> = Vec::new();
        v.push(Chorus::First);
        v.push(Chorus::Second);
        v.push(Chorus::Third);
        v.push(Chorus::Fourth);
        v.push(Chorus::Fifth);
        v.push(Chorus::Sixth);
        v.push(Chorus::Seventh);
        v.push(Chorus::Eight);
        v.push(Chorus::Ninth);
        v.push(Chorus::Tenth);
        v.push(Chorus::Eleventh);
        v.push(Chorus::Twelfth);
        proof {
            assert(v@ =~= seq![
                Chorus::First,
                Chorus::Second,
                Chorus::Third,
                Chorus::Fourth,
                Chorus::Fifth,
                Chorus::Sixth,
                Chorus::Seventh,
                Chorus::Eight,
                Chorus::Ninth,
                Chorus::Tenth,
                Chorus::Eleventh,
                Chorus::Twelfth,
            ]);
        }
        v
    }
}

} // verus!

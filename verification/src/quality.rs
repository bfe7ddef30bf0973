use vstd::prelude::*;
use vstd::string::StringExecFns;

use crate::strutil::{eq_lower, lower};

verus! {

/// One downloadable rendition tier.  The named tiers are the labels the
/// site advertises; anything else is carried verbatim in `Other`.
#[derive(Debug, Clone)]
pub enum Quality {
    P360,
    P480,
    P540,
    P720,
    P1080,
    P1440,
    P2160,
    Other(String),
}

/// The tier a lowercased label denotes, if it is one of the named tiers.
pub open spec fn canonical_tier(l: Seq<char>) -> Option<Quality> {
    if l == "360p"@ {
        Some(Quality::P360)
    } else if l == "480p"@ {
        Some(Quality::P480)
    } else if l == "540p"@ {
        Some(Quality::P540)
    } else if l == "720p"@ {
        Some(Quality::P720)
    } else if l == "1080p"@ {
        Some(Quality::P1080)
    } else if l == "1440p"@ {
        Some(Quality::P1440)
    } else if l == "2160p"@ || l == "4k"@ {
        Some(Quality::P2160)
    } else {
        None
    }
}

/// What `Quality::from_str` must return for input `s`: the named tier whose
/// label matches case-insensitively, else `Other` holding `s` verbatim.
pub open spec fn parses_to(s: Seq<char>, q: Quality) -> bool {
    match canonical_tier(lower(s)) {
        Some(t) => q == t,
        None => q matches Quality::Other(u) && u@ == s,
    }
}

/// The canonical label of a tier; `Other` renders its stored text.
pub open spec fn label_spec(q: &Quality) -> Seq<char> {
    match q {
        Quality::P360 => "360p"@,
        Quality::P480 => "480p"@,
        Quality::P540 => "540p"@,
        Quality::P720 => "720p"@,
        Quality::P1080 => "1080p"@,
        Quality::P1440 => "1440p"@,
        Quality::P2160 => "2160p"@,
        Quality::Other(s) => s@,
    }
}

/// Total order over tiers, used for selection.  The open-ended `Other`
/// tier always ranks lowest; the numeric tiers rank by resolution.
pub open spec fn rank_spec(q: &Quality) -> int {
    match q {
        Quality::Other(_) => 0,
        Quality::P360 => 1,
        Quality::P480 => 2,
        Quality::P540 => 3,
        Quality::P720 => 4,
        Quality::P1080 => 5,
        Quality::P1440 => 6,
        Quality::P2160 => 7,
    }
}

impl Quality {
    /// Parses a quality label.  Matching is case-insensitive over the
    /// ASCII labels (`"4K"` is the 2160p tier); an unrecognized label is
    /// preserved verbatim in `Other`.
    pub fn from_str(s: &str) -> (r: Self)
        ensures
            parses_to(s@, r),
    {
        if eq_lower(s, "360p") {
            Quality::P360
        } else if eq_lower(s, "480p") {
            Quality::P480
        } else if eq_lower(s, "540p") {
            Quality::P540
        } else if eq_lower(s, "720p") {
            Quality::P720
        } else if eq_lower(s, "1080p") {
            Quality::P1080
        } else if eq_lower(s, "1440p") {
            Quality::P1440
        } else if eq_lower(s, "2160p") || eq_lower(s, "4k") {
            Quality::P2160
        } else {
            Quality::Other(s.to_owned())
        }
    }

    /// Serializes the tier back to its label.
    pub fn to_string_p(&self) -> (r: String)
        ensures
            r@ == label_spec(self),
    {
        match self {
            Quality::P360 => "360p".to_owned(),
            Quality::P480 => "480p".to_owned(),
            Quality::P540 => "540p".to_owned(),
            Quality::P720 => "720p".to_owned(),
            Quality::P1080 => "1080p".to_owned(),
            Quality::P1440 => "1440p".to_owned(),
            Quality::P2160 => "2160p".to_owned(),
            Quality::Other(s) => s.clone(),
        }
    }

    /// The selection rank of this tier.
    pub fn rank(&self) -> (r: u32)
        ensures
            r as int == rank_spec(self),
    {
        match self {
            Quality::Other(_) => 0,
            Quality::P360 => 1,
            Quality::P480 => 2,
            Quality::P540 => 3,
            Quality::P720 => 4,
            Quality::P1080 => 5,
            Quality::P1440 => 6,
            Quality::P2160 => 7,
        }
    }

    /// Whether this is exactly the 1080p tier preferred by selection.
    pub fn is_p1080(&self) -> (r: bool)
        ensures
            r == (*self matches Quality::P1080),
    {
        match self {
            Quality::P1080 => true,
            _ => false,
        }
    }

    /// An equal copy of this tier.
    pub fn duplicate(&self) -> (r: Self)
        ensures
            r == *self,
    {
        match self {
            Quality::P360 => Quality::P360,
            Quality::P480 => Quality::P480,
            Quality::P540 => Quality::P540,
            Quality::P720 => Quality::P720,
            Quality::P1080 => Quality::P1080,
            Quality::P1440 => Quality::P1440,
            Quality::P2160 => Quality::P2160,
            Quality::Other(s) => Quality::Other(s.clone()),
        }
    }
}

/// Round-trip law: every named tier's label parses back to that tier, and
/// serializing first is the identity on the label.
pub proof fn lemma_label_round_trip(q: Quality)
    requires
        !(q matches Quality::Other(_)),
    ensures
        parses_to(label_spec(&q), q),
{
    reveal_strlit("360p");
    reveal_strlit("480p");
    reveal_strlit("540p");
    reveal_strlit("720p");
    reveal_strlit("1080p");
    reveal_strlit("1440p");
    reveal_strlit("2160p");
    reveal_strlit("4k");
    match q {
        Quality::P360 => {
            assert(lower("360p"@) =~= "360p"@);
        },
        Quality::P480 => {
            assert(lower("480p"@) =~= "480p"@);
            assert("480p"@[0] == '4' && "360p"@[0] == '3');
            assert("480p"@ != "360p"@);
        },
        Quality::P540 => {
            assert(lower("540p"@) =~= "540p"@);
            assert("540p"@[0] == '5' && "360p"@[0] == '3' && "480p"@[0] == '4');
            assert("540p"@ != "360p"@ && "540p"@ != "480p"@);
        },
        Quality::P720 => {
            assert(lower("720p"@) =~= "720p"@);
            assert("720p"@[0] == '7' && "360p"@[0] == '3' && "480p"@[0] == '4' && "540p"@[0]
                == '5');
            assert("720p"@ != "360p"@ && "720p"@ != "480p"@ && "720p"@ != "540p"@);
        },
        Quality::P1080 => {
            assert(lower("1080p"@) =~= "1080p"@);
        },
        Quality::P1440 => {
            assert(lower("1440p"@) =~= "1440p"@);
            assert("1440p"@[1] == '4' && "1080p"@[1] == '0');
            assert("1440p"@ != "1080p"@);
        },
        Quality::P2160 => {
            assert(lower("2160p"@) =~= "2160p"@);
            assert("2160p"@[0] == '2' && "1080p"@[0] == '1' && "1440p"@[0] == '1');
            assert("2160p"@ != "1080p"@ && "2160p"@ != "1440p"@);
        },
        Quality::Other(_) => {
        },
    }
}

} // verus!

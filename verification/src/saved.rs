//! The file in which an earlier connection left its parameters.
//!
//! The file holds comma-separated fields: the second is the round-trip time in
//! seconds, the fourth the congestion window in bytes, and the sixth the time
//! of writing in seconds since the Unix epoch. The other fields are not read.
use crate::span::{Span, NANOS_PER_SEC};
use crate::text::{
    char_views, fields, law_comma_separates, parse_u64, parsed_u64, split_fields,
};
use vstd::prelude::*;

verus! {

/// The name of the file.
pub const SAVED_CC_FILE: &'static str = "saved_params.csv";

/// Parameters older than this many seconds are not used.
pub const PARAMS_MAXIMUM_GAP_SECS: u64 = 7_200;

/// What a file of saved parameters says.
#[derive(Clone, Copy, Debug, PartialEq, Eq, Structural)]
pub struct SavedParams {
    /// Round-trip time in seconds, where the field holds a number.
    pub rtt_secs: Option<u64>,
    /// Congestion window in bytes, where the field holds a number.
    pub cwnd: Option<u64>,
    /// Seconds since the Unix epoch at which the file was written, where the
    /// field holds a number.
    pub time_secs: Option<u64>,
}

/// What became of reading a file of saved parameters.
#[derive(Clone, Copy, Debug, PartialEq, Eq, Structural)]
pub enum SavedFile {
    /// The file holds no second field, so it saves nothing.
    Blank,
    /// The file has a second field but ends before the sixth.
    Truncated,
    /// The file has all its fields.
    Params(SavedParams),
}

/// The number in `o`, or `absent` where there is none.
pub open spec fn number_or(o: Option<u64>, absent: u64) -> u64 {
    match o {
        Some(n) => n,
        None => absent,
    }
}

/// What a file with the given contents says.
pub open spec fn saved_file(contents: Seq<char>) -> SavedFile {
    let f = fields(contents);
    if f.len() < 2 {
        SavedFile::Blank
    } else if f.len() < 6 {
        SavedFile::Truncated
    } else {
        SavedFile::Params(
            SavedParams {
                rtt_secs: parsed_u64(f[1]),
                cwnd: parsed_u64(f[3]),
                time_secs: parsed_u64(f[5]),
            },
        )
    }
}

/// A connection can start from these contents at `now`, in nanoseconds since
/// the Unix epoch: the file, if there is one, is not truncated and was not
/// written in the future. A file without its time counts as written at the
/// epoch.
pub open spec fn usable(contents: Option<Seq<char>>, now: nat) -> bool {
    match contents {
        None => true,
        Some(text) => match saved_file(text) {
            SavedFile::Blank => true,
            SavedFile::Truncated => false,
            SavedFile::Params(p) => number_or(p.time_secs, 0) as nat * NANOS_PER_SEC as nat
                <= now,
        },
    }
}

/// The contents of a file that may be missing.
pub open spec fn contents_view(contents: Option<&str>) -> Option<Seq<char>> {
    match contents {
        None => None,
        Some(text) => Some(text@),
    }
}

/// Reads a file of saved parameters.
pub fn read_saved_file(contents: &str) -> (r: SavedFile)
    ensures
        r == saved_file(contents@),
{
    let parts = split_fields(contents);
    proof {
        assert(char_views(parts@).len() == parts@.len());
        assert(forall|i: int| 0 <= i < parts@.len() ==> #[trigger] char_views(parts@)[i] == parts@[i]@);
    }
    if parts.len() < 2 {
        SavedFile::Blank
    } else if parts.len() < 6 {
        SavedFile::Truncated
    } else {
        SavedFile::Params(
            SavedParams {
                rtt_secs: parse_u64(&parts[1]),
                cwnd: parse_u64(&parts[3]),
                time_secs: parse_u64(&parts[5]),
            },
        )
    }
}

/// Tells whether a connection can start from these contents at `now`, the time
/// since the Unix epoch.
pub fn is_usable(contents: Option<&str>, now: Span) -> (r: bool)
    ensures
        r == usable(contents_view(contents), now@),
{
    match contents {
        None => true,
        Some(text) => match read_saved_file(text) {
            SavedFile::Blank => true,
            SavedFile::Truncated => false,
            SavedFile::Params(p) => p.time_secs.unwrap_or(0) as u128 * NANOS_PER_SEC as u128
                <= now.as_nanos(),
        },
    }
}

/// Six fields, and whatever may follow a seventh comma, give the round-trip
/// time in the second, the window in the fourth and the time in the sixth.
pub proof fn law_six_fields_give_parameters(
    f0: Seq<char>,
    f1: Seq<char>,
    f2: Seq<char>,
    f3: Seq<char>,
    f4: Seq<char>,
    f5: Seq<char>,
    more: Seq<char>,
)
    requires
        !f0.contains(','),
        !f1.contains(','),
        !f2.contains(','),
        !f3.contains(','),
        !f4.contains(','),
        !f5.contains(','),
    ensures
        ({
            let comma = seq![','];
            let text = f0 + comma + f1 + comma + f2 + comma + f3 + comma + f4 + comma + f5;
            let found = SavedFile::Params(
                SavedParams {
                    rtt_secs: parsed_u64(f1),
                    cwnd: parsed_u64(f3),
                    time_secs: parsed_u64(f5),
                },
            );
            saved_file(text) == found && saved_file(text + comma + more) == found
        }),
{
    let comma = seq![','];
    let t1 = f0 + comma + f1;
    let t2 = t1 + comma + f2;
    let t3 = t2 + comma + f3;
    let t4 = t3 + comma + f4;
    let t5 = t4 + comma + f5;
    lemma_fields_of_five(f0, f1, f2, f3, f4);
    law_comma_separates(f5, f5);
    law_comma_separates(t4, f5);
    law_comma_separates(t5, more);
    assert(fields(t5)[1] == f1 && fields(t5)[3] == f3 && fields(t5)[5] == f5);
}

proof fn lemma_fields_of_five(
    f0: Seq<char>,
    f1: Seq<char>,
    f2: Seq<char>,
    f3: Seq<char>,
    f4: Seq<char>,
)
    requires
        !f0.contains(','),
        !f1.contains(','),
        !f2.contains(','),
        !f3.contains(','),
        !f4.contains(','),
    ensures
        ({
            let comma = seq![','];
            let t1 = f0 + comma + f1;
            let t2 = t1 + comma + f2;
            let t3 = t2 + comma + f3;
            let t4 = t3 + comma + f4;
            &&& fields(f0) == seq![f0]
            &&& fields(t1) == seq![f0, f1]
            &&& fields(t2) == seq![f0, f1, f2]
            &&& fields(t3) == seq![f0, f1, f2, f3]
            &&& fields(t4) == seq![f0, f1, f2, f3, f4]
        }),
{
    let comma = seq![','];
    let t1 = f0 + comma + f1;
    let t2 = t1 + comma + f2;
    let t3 = t2 + comma + f3;
    let t4 = t3 + comma + f4;
    law_comma_separates(f0, f1);
    law_comma_separates(f1, f1);
    law_comma_separates(f2, f2);
    law_comma_separates(f3, f3);
    law_comma_separates(f4, f4);
    law_comma_separates(t1, f2);
    law_comma_separates(t2, f3);
    law_comma_separates(t3, f4);
    assert(fields(t1) =~= seq![f0, f1]);
    assert(fields(t2) =~= seq![f0, f1, f2]);
    assert(fields(t3) =~= seq![f0, f1, f2, f3]);
    assert(fields(t4) =~= seq![f0, f1, f2, f3, f4]);
}

/// One field saves nothing, and two to five are a file that was cut short.
pub proof fn law_fewer_fields_give_none(
    f0: Seq<char>,
    f1: Seq<char>,
    f2: Seq<char>,
    f3: Seq<char>,
    f4: Seq<char>,
)
    requires
        !f0.contains(','),
        !f1.contains(','),
        !f2.contains(','),
        !f3.contains(','),
        !f4.contains(','),
    ensures
        ({
            let comma = seq![','];
            &&& saved_file(f0) == SavedFile::Blank
            &&& saved_file(f0 + comma + f1) == SavedFile::Truncated
            &&& saved_file(f0 + comma + f1 + comma + f2) == SavedFile::Truncated
            &&& saved_file(f0 + comma + f1 + comma + f2 + comma + f3) == SavedFile::Truncated
            &&& saved_file(f0 + comma + f1 + comma + f2 + comma + f3 + comma + f4)
                == SavedFile::Truncated
        }),
{
    lemma_fields_of_five(f0, f1, f2, f3, f4);
}

/// A file is of use exactly if it is missing, saves nothing, or is complete and
/// was written no later than now.
pub proof fn law_usable_files(text: Seq<char>, now: nat)
    ensures
        usable(None, now),
        saved_file(text) == SavedFile::Blank ==> usable(Some(text), now),
        saved_file(text) == SavedFile::Truncated ==> !usable(Some(text), now),
        saved_file(text) matches SavedFile::Params(p) ==> (p.time_secs matches Some(secs) ==> (
        usable(Some(text), now) <==> secs * 1_000_000_000 <= now)) && (p.time_secs is None
            ==> usable(Some(text), now)),
{
}

} // verus!

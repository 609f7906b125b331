//! Version verification: producer strings taken from debug information
//! are compared by their version token — the third space-delimited
//! field — so that vendor formatting differences are tolerated while a
//! toolchain-release skew is rejected.

use vstd::prelude::*;
use crate::error::{Error, ToolchainFailure};
use crate::toolchain::Compiler;

verus! {

/// The fields of `s` split on single spaces, empty fields kept, read
/// left to right: `cur` is the field being gathered and `acc` the
/// fields already complete.
pub open spec fn split_fields_from(
    s: Seq<char>,
    i: int,
    cur: Seq<char>,
    acc: Seq<Seq<char>>,
) -> Seq<Seq<char>>
    decreases s.len() - i
        when 0 <= i <= s.len()
{
    if i >= s.len() {
        acc.push(cur)
    } else if s[i] == ' ' {
        split_fields_from(s, i + 1, Seq::empty(), acc.push(cur))
    } else {
        split_fields_from(s, i + 1, cur.push(s[i]), acc)
    }
}

/// The space-delimited fields of `s`, empty fields kept; a string with
/// no space is one field, so the result is never empty.
pub open spec fn split_fields(s: Seq<char>) -> Seq<Seq<char>> {
    split_fields_from(s, 0, Seq::empty(), Seq::empty())
}

/// The producer string a binary yields: that of its first compile-unit
/// record, or empty when the binary has no records at all.
pub open spec fn producer_string(p: Option<String>) -> Seq<char> {
    match p {
        Some(s) => s@,
        None => Seq::empty(),
    }
}

/// Two producer strings denote the same toolchain release: each has at
/// least three space-delimited fields, and the third fields — the
/// version tokens — are equal.
pub open spec fn version_matches(a: Seq<char>, b: Seq<char>) -> bool {
    &&& split_fields(a).len() >= 3
    &&& split_fields(b).len() >= 3
    &&& split_fields(a)[2] == split_fields(b)[2]
}

/// A binary with zero compile-unit records yields no producer string,
/// and a missing producer string never passes the version comparison:
/// its only field is the empty one, so it can have no version token.
pub proof fn lemma_missing_record_never_matches(b: Seq<char>)
    ensures
        !version_matches(producer_string(None), b),
        !version_matches(b, producer_string(None)),
{
    assert(split_fields(Seq::<char>::empty()) =~= seq![Seq::<char>::empty()]);
}

/// A reference binary whose recorded producer string is the live
/// compiler's own always passes the version comparison, as long as the
/// string carries a version token at all.
pub proof fn lemma_same_producer_matches(a: Seq<char>)
    requires
        split_fields(a).len() >= 3,
    ensures
        version_matches(a, a),
{
}

/// Splits a producer string on single spaces, keeping empty fields.
pub fn split_on_spaces(s: &str) -> (r: Vec<String>)
    ensures
        r.deep_view() == split_fields(s@),
{
    let n = s.unicode_len();
    let mut acc: Vec<String> = Vec::new();
    let mut start: usize = 0;
    let mut i: usize = 0;
    proof {
        assert(s@.subrange(0, 0) =~= Seq::<char>::empty());
        assert(acc.deep_view() =~~= Seq::<Seq<char>>::empty());
    }
    while i < n
        invariant
            start <= i <= n,
            n == s@.len(),
            split_fields_from(
                s@,
                i as int,
                s@.subrange(start as int, i as int),
                acc.deep_view(),
            ) == split_fields(s@),
        decreases n - i,
    {
        let c = s.get_char(i);
        if c == ' ' {
            let ghost old_acc = acc.deep_view();
            let ghost cur = s@.subrange(start as int, i as int);
            let field = s.substring_char(start, i).to_owned();
            acc.push(field);
            proof {
                assert(acc.deep_view() =~~= old_acc.push(cur));
                assert(s@.subrange(i as int + 1, i as int + 1) =~= Seq::<char>::empty());
            }
            start = i + 1;
        } else {
            proof {
                assert(s@.subrange(start as int, i as int + 1) =~= s@.subrange(
                    start as int,
                    i as int,
                ).push(s@[i as int]));
            }
        }
        i += 1;
    }
    let ghost old_acc = acc.deep_view();
    let ghost cur = s@.subrange(start as int, n as int);
    let last = s.substring_char(start, n).to_owned();
    acc.push(last);
    proof {
        assert(acc.deep_view() =~~= old_acc.push(cur));
    }
    acc
}

/// Judges the exit of the probe compilation: success exactly when the
/// compiler exited with code zero; otherwise the exit code and captured
/// stderr are reported.
pub fn probe_outcome(exit_code: i32, stderr: String) -> (r: Result<(), Error>)
    ensures
        r is Ok <==> exit_code == 0,
        r matches Err(e) ==> (e matches Error::Compiler(ToolchainFailure::Probe {
            exit_code: c,
            stderr: s,
        }) && c == exit_code && s == stderr),
{
    if exit_code == 0 {
        Ok(())
    } else {
        Err(Error::Compiler(ToolchainFailure::Probe { exit_code, stderr }))
    }
}

impl Compiler {
    /// Compares the producer string recorded in the reference binary's
    /// debug info with the one of the probe object built by the live
    /// compiler. Each argument is the producer of its binary's first
    /// compile-unit record; a binary with no records yields none, and a
    /// missing record never passes. On mismatch both full producer
    /// strings are kept in the error for diagnostics.
    pub fn check_version(
        &self,
        debug_info_producer: Option<String>,
        probe_producer: Option<String>,
    ) -> (r: Result<(), Error>)
        ensures
            r is Ok <==> version_matches(
                producer_string(debug_info_producer),
                producer_string(probe_producer),
            ),
            r matches Err(e) ==> (e matches Error::Compiler(ToolchainFailure::VersionMismatch {
                debug_info,
                probe,
            }) && debug_info@ == producer_string(debug_info_producer) && probe@
                == producer_string(probe_producer)),
    {
        let dbg = match debug_info_producer {
            Some(s) => s,
            None => String::new(),
        };
        let prb = match probe_producer {
            Some(s) => s,
            None => String::new(),
        };
        let dbg_fields = split_on_spaces(dbg.as_str());
        let prb_fields = split_on_spaces(prb.as_str());
        proof {
            assert(dbg_fields.deep_view().len() == dbg_fields@.len());
            assert(prb_fields.deep_view().len() == prb_fields@.len());
        }
        if dbg_fields.len() < 3 || prb_fields.len() < 3 {
            return Err(Error::Compiler(ToolchainFailure::VersionMismatch {
                debug_info: dbg,
                probe: prb,
            }));
        }
        proof {
            assert(dbg_fields.deep_view()[2] == dbg_fields@[2]@);
            assert(prb_fields.deep_view()[2] == prb_fields@[2]@);
        }
        let same = dbg_fields[2].eq(&prb_fields[2]);
        if !same {
            return Err(Error::Compiler(ToolchainFailure::VersionMismatch {
                debug_info: dbg,
                probe: prb,
            }));
        }
        Ok(())
    }
}

} // verus!

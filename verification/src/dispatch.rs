//! Execution-backend dispatch: locating the WebAssembly module in a staged
//! runtime bundle and building the sandbox invocation.
//!
//! The WebAssembly backend maps the execution's input and output staging
//! directories read/write into the sandbox under the fixed names `input`
//! and `output`, and blocks until the external runtime process exits; a
//! non-zero exit is fatal to the cycle. The container and bare-metal
//! selectors are valid values but perform no work in this design.

use vstd::prelude::*;
use vstd::string::*;
use crate::config::AgentConfig;
use crate::config::spec_job_execution_input_path;
use crate::config::spec_job_execution_output_path;
use crate::model::AgentError;

verus! {

/// `pattern` occurs contiguously somewhere in `s`.
pub open spec fn contains_seq(s: Seq<char>, pattern: Seq<char>) -> bool {
    exists|i: int|
        0 <= i && i + pattern.len() <= s.len() && #[trigger] s.subrange(i, i + pattern.len())
            == pattern
}

/// Substring search over the characters of `s`.
pub fn contains_substr(s: &str, pattern: &str) -> (r: bool)
    ensures
        r == contains_seq(s@, pattern@),
{
    let n = s.unicode_len();
    let m = pattern.unicode_len();
    if m == 0 {
        proof {
            assert(s@.subrange(0, 0 + pattern@.len() as int) =~= pattern@);
        }
        return true;
    }
    if m > n {
        return false;
    }
    let mut i: usize = 0;
    while i <= n - m
        invariant
            n == s@.len(),
            m == pattern@.len(),
            0 < m <= n,
            i <= n - m + 1,
            forall|k: int| 0 <= k < i ==> #[trigger] s@.subrange(k, k + m as int) != pattern@,
        decreases n - m - i + 1,
    {
        let mut j: usize = 0;
        while j < m && s.get_char(i + j) == pattern.get_char(j)
            invariant
                n == s@.len(),
                m == pattern@.len(),
                i + m <= n,
                j <= m,
                forall|k: int| 0 <= k < j ==> s@[i + k] == pattern@[k],
            decreases m - j,
        {
            j = j + 1;
        }
        if j == m {
            proof {
                assert(s@.subrange(i as int, i + m) =~= pattern@);
            }
            return true;
        }
        proof {
            assert(s@.subrange(i as int, i + m as int)[j as int] == s@[i + j]);
        }
        i = i + 1;
    }
    proof {
        assert forall|k: int| !(0 <= k && k + pattern@.len() <= s@.len() && #[trigger] s@.subrange(
            k,
            k + pattern@.len(),
        ) == pattern@) by {
            if 0 <= k && k + pattern@.len() <= s@.len() {
                assert(k < i);
            }
        }
    }
    false
}

/// The first directory entry whose path mentions `.wasm`, if any.
pub open spec fn spec_first_wasm(entries: Seq<Seq<char>>) -> Option<Seq<char>>
    decreases entries.len(),
{
    if entries.len() == 0 {
        None
    } else if contains_seq(entries[0], ".wasm"@) {
        Some(entries[0])
    } else {
        spec_first_wasm(entries.drop_first())
    }
}

/// What being the first match means: the result mentions `.wasm`, stands in
/// the entries, and no earlier entry mentions `.wasm`; there is no result
/// exactly when no entry mentions `.wasm` at all.
pub proof fn lemma_first_wasm_characterization(entries: Seq<Seq<char>>)
    ensures
        spec_first_wasm(entries) is None <==> (forall|k: int|
            0 <= k < entries.len() ==> !contains_seq(#[trigger] entries[k], ".wasm"@)),
        spec_first_wasm(entries) matches Some(f) ==> exists|i: int|
            0 <= i < entries.len() && #[trigger] contains_seq(entries[i], ".wasm"@) && f
                == entries[i] && (forall|j: int|
                0 <= j < i ==> !contains_seq(#[trigger] entries[j], ".wasm"@)),
    decreases entries.len(),
{
    if entries.len() > 0 && !contains_seq(entries[0], ".wasm"@) {
        lemma_first_wasm_characterization(entries.drop_first());
        let rest = entries.drop_first();
        assert(forall|k: int| 0 <= k < rest.len() ==> rest[k] == entries[k + 1]);
        if spec_first_wasm(entries) is None {
            assert forall|k: int| 0 <= k < entries.len() implies !contains_seq(
                #[trigger] entries[k],
                ".wasm"@,
            ) by {
                if k > 0 {
                    assert(entries[k] == rest[k - 1]);
                    assert(!contains_seq(rest[k - 1], ".wasm"@));
                }
            }
        } else {
            assert(exists|k: int|
                0 <= k < rest.len() && contains_seq(#[trigger] rest[k], ".wasm"@));
            let w = choose|k: int|
                0 <= k < rest.len() && contains_seq(#[trigger] rest[k], ".wasm"@);
            assert(contains_seq(entries[w + 1], ".wasm"@));
            let f = spec_first_wasm(entries)->Some_0;
            let i = choose|i: int|
                0 <= i < rest.len() && #[trigger] contains_seq(rest[i], ".wasm"@) && f == rest[i]
                    && (forall|j: int| 0 <= j < i ==> !contains_seq(#[trigger] rest[j], ".wasm"@));
            assert(contains_seq(entries[i + 1], ".wasm"@));
            assert forall|j: int| 0 <= j < i + 1 implies !contains_seq(
                #[trigger] entries[j],
                ".wasm"@,
            ) by {
                if j > 0 {
                    assert(entries[j] == rest[j - 1]);
                    assert(!contains_seq(rest[j - 1], ".wasm"@));
                }
            }
        }
    }
}

/// Picks the WebAssembly module out of a runtime directory's entries: the
/// first entry whose path mentions `.wasm`. Fails when the staged bundle
/// holds none — the backend cannot run without a module.
pub fn get_wasm_file_in_dir(entries: &Vec<String>) -> (r: Result<String, AgentError>)
    ensures
        r matches Ok(f) ==> spec_first_wasm(entries.deep_view()) == Some(f@),
        r is Err <==> spec_first_wasm(entries.deep_view()) is None,
        r is Err ==> r == Err::<String, AgentError>(AgentError::MissingWasmModule),
{
    let ghost all = entries.deep_view();
    proof {
        assert(all.skip(0) =~= all);
    }
    let mut i: usize = 0;
    while i < entries.len()
        invariant
            all == entries.deep_view(),
            i <= entries@.len(),
            spec_first_wasm(all) == spec_first_wasm(all.skip(i as int)),
        decreases entries@.len() - i,
    {
        proof {
            assert(all.skip(i as int)[0] == entries@[i as int]@);
        }
        if contains_substr(entries[i].as_str(), ".wasm") {
            return Ok(entries[i].clone());
        }
        proof {
            assert(all.skip(i as int).drop_first() =~= all.skip(i + 1));
        }
        i = i + 1;
    }
    proof {
        assert(all.skip(entries@.len() as int) =~= Seq::<Seq<char>>::empty());
    }
    Err(AgentError::MissingWasmModule)
}

/// Argument list of the sandbox invocation for one execution: run the
/// module with the execution's input and output directories mapped under
/// the fixed names `input` and `output`.
pub open spec fn spec_wasmer_args(
    root: Seq<char>,
    job_execution_id: Seq<char>,
    wasm_file: Seq<char>,
) -> Seq<Seq<char>> {
    seq![
        "run"@,
        "--mapdir=input:"@ + spec_job_execution_input_path(root, job_execution_id),
        "--mapdir=output:"@ + spec_job_execution_output_path(root, job_execution_id),
        wasm_file,
    ]
}

/// Builds the argument list the external WebAssembly runtime process is
/// launched with. The caller spawns the process and treats a non-zero exit
/// as a fatal failure of the cycle.
pub fn run_wasmer(config: &AgentConfig, id: &str, wasm_file: &str) -> (args: Vec<String>)
    ensures
        args.deep_view() == spec_wasmer_args(config.root@, id@, wasm_file@),
{
    let mut input_map = "--mapdir=input:".to_owned();
    input_map.append(config.get_job_execution_input_path(id).as_str());
    let mut output_map = "--mapdir=output:".to_owned();
    output_map.append(config.get_job_execution_output_path(id).as_str());
    let mut args: Vec<String> = Vec::new();
    args.push("run".to_owned());
    args.push(input_map);
    args.push(output_map);
    args.push(wasm_file.to_owned());
    proof {
        assert(args.deep_view() =~= spec_wasmer_args(config.root@, id@, wasm_file@));
    }
    args
}

} // verus!

//! The one-shot load of a policy set, and the queries on what was loaded.
//!
//! A load decodes the text of a buffer, parses it, and commits the result to
//! the store, stopping at the first step that fails. Only a load that went
//! through all three steps changes the store, and only the first such load
//! ever does.

use crate::engine::{count_policies, parse_policies, parsed_policy_count};
use crate::error::{code_of, status_code, Error};
use crate::store::{commit_outcome, committed_size, count_of, PolicyStore};
use crate::text::{decoded_text, str_from_cstr, text_bytes};
use vstd::prelude::*;
use vstd::utf8::valid_utf8;

verus! {

/// What decoding and parsing make of a buffer, whatever the store holds: the
/// size of the policy set that its text stands for, or the failure of the
/// first step that rejects it.
pub open spec fn parsed_buffer(buffer: Seq<u8>) -> Result<nat, Error> {
    match decoded_text(buffer) {
        None => Err(Error::InvalidUtf8()),
        Some(text) => match parsed_policy_count(text) {
            None => Err(Error::PolicyParsing()),
            Some(n) => Ok(n),
        },
    }
}

/// The outcome of loading `buffer` into a store that is `loaded` or not.
///
/// The text is judged first: a store that is already loaded still reports
/// bytes that are no UTF-8 and text that is no policy document as such.
pub open spec fn load_outcome(loaded: bool, buffer: Seq<u8>) -> Result<(), Error> {
    match parsed_buffer(buffer) {
        Err(e) => Err(e),
        Ok(_) => commit_outcome(loaded),
    }
}

/// What a store holds after loading `buffer`, given what it held `before`:
/// a loaded store keeps what it has, an empty one takes what the buffer
/// parses to, if it parses.
pub open spec fn size_after(before: Option<nat>, buffer: Seq<u8>) -> Option<nat> {
    match before {
        Some(n) => Some(n),
        None => match parsed_buffer(buffer) {
            Ok(n) => Some(n),
            Err(_) => None,
        },
    }
}

/// What a store holds after loading each of `buffers` in turn.
pub open spec fn size_after_all(start: Option<nat>, buffers: Seq<Seq<u8>>) -> Option<nat>
    decreases buffers.len(),
{
    if buffers.len() == 0 {
        start
    } else {
        size_after(size_after_all(start, buffers.drop_last()), buffers.last())
    }
}

/// The outcome of the load numbered `k`, counting from zero, when `buffers`
/// are loaded in turn into a store that starts empty.
pub open spec fn outcome_at(buffers: Seq<Seq<u8>>, k: int) -> Result<(), Error> {
    load_outcome(size_after_all(None, buffers.take(k)) is Some, buffers[k])
}

/// Parses the text of `buffer` and commits it to `store`.
///
/// The steps run in order and the first failure ends the load: bytes that are
/// not UTF-8, then text that the engine rejects, then a store that is already
/// loaded. A failed load leaves the store exactly as it was.
pub fn _load_policies(store: &mut PolicyStore, buffer: &[u8]) -> (outcome: Result<(), Error>)
    ensures
        outcome == load_outcome(old(store)@ is Some, buffer@),
        committed_size(final(store)@) == size_after(committed_size(old(store)@), buffer@),
        outcome is Err ==> final(store)@ == old(store)@,
{
    let text: &str = match str_from_cstr(buffer) {
        Ok(text) => text,
        Err(e) => {
            return Err(e);
        },
    };
    let parsed = match parse_policies(text) {
        Ok(parsed) => parsed,
        Err(e) => {
            return Err(e);
        },
    };
    store.set(parsed)
}

/// Loads the text of `buffer` into `store` and reports the outcome as a code:
/// 0 for success, 1000 for a store that is already loaded, 1001 for bytes
/// that are not UTF-8, 1002 for text that is no policy document.
pub fn load_policies(store: &mut PolicyStore, buffer: &[u8]) -> (code: u32)
    ensures
        code == code_of(load_outcome(old(store)@ is Some, buffer@)),
        committed_size(final(store)@) == size_after(committed_size(old(store)@), buffer@),
        code != 0 ==> final(store)@ == old(store)@,
{
    let outcome = _load_policies(store, buffer);
    status_code(&outcome)
}

/// Counts the policies that `store` holds; zero while nothing was loaded.
pub fn _count_num_policies(store: &PolicyStore) -> (n: usize)
    ensures
        n == count_of(committed_size(store@)),
{
    match store.get() {
        Some(set) => count_policies(set),
        None => 0,
    }
}

/// Counts the policies that `store` holds; zero while nothing was loaded.
/// It never fails and changes nothing.
pub fn count_num_policies(store: &PolicyStore) -> (n: usize)
    ensures
        n == count_of(committed_size(store@)),
{
    _count_num_policies(store)
}

/// Until a load succeeds the store stays empty and the count stays zero: if
/// every load of `buffers` into a store that starts empty failed, the store
/// holds nothing afterwards.
pub proof fn lemma_empty_until_success(buffers: Seq<Seq<u8>>)
    requires
        forall|k: int| 0 <= k < buffers.len() ==> outcome_at(buffers, k) is Err,
    ensures
        size_after_all(None, buffers) is None,
        count_of(size_after_all(None, buffers)) == 0,
    decreases buffers.len(),
{
    if buffers.len() > 0 {
        let earlier = buffers.drop_last();
        let last = buffers.len() - 1;
        assert forall|k: int| 0 <= k < earlier.len() implies outcome_at(earlier, k) is Err by {
            assert(earlier.take(k) == buffers.take(k));
            assert(outcome_at(buffers, k) is Err);
        }
        lemma_empty_until_success(earlier);
        assert(buffers.take(last) == earlier);
        assert(outcome_at(buffers, last) is Err);
    }
}

/// A single load of a valid text into an empty store succeeds, and the count
/// is then the number of policies in that text.
pub proof fn lemma_first_load_commits(buffer: Seq<u8>, n: nat)
    requires
        parsed_buffer(buffer) == Ok::<nat, Error>(n),
    ensures
        load_outcome(false, buffer) == Ok::<(), Error>(()),
        code_of(load_outcome(false, buffer)) == 0,
        size_after(None, buffer) == Some(n),
        count_of(size_after(None, buffer)) == n,
{
}

/// What was committed stays: a loaded store holds the same after any further
/// loads, whatever their buffers hold.
pub proof fn lemma_committed_stays(n: nat, buffers: Seq<Seq<u8>>)
    ensures
        size_after_all(Some(n), buffers) == Some(n),
    decreases buffers.len(),
{
    if buffers.len() > 0 {
        lemma_committed_stays(n, buffers.drop_last());
    }
}

/// The store never goes back to empty, and never changes once it is loaded.
pub proof fn lemma_presence_monotonic(before: Option<nat>, buffer: Seq<u8>)
    ensures
        before is Some ==> size_after(before, buffer) == before,
        size_after(before, buffer) is None ==> before is None,
{
}

/// A store that holds something after `k` loads holds the same after all of
/// them.
proof fn lemma_loaded_prefix(buffers: Seq<Seq<u8>>, k: int)
    requires
        0 <= k <= buffers.len(),
        size_after_all(None, buffers.take(k)) is Some,
    ensures
        size_after_all(None, buffers) == size_after_all(None, buffers.take(k)),
    decreases buffers.len() - k,
{
    if k < buffers.len() {
        let earlier = buffers.drop_last();
        assert(earlier.take(k) == buffers.take(k));
        lemma_loaded_prefix(earlier, k);
    } else {
        assert(buffers.take(k) == buffers);
    }
}

/// Of any run of loads into a store that starts empty, at most one succeeds.
/// After load `i` succeeded, every later load `j` fails and changes nothing:
/// with a text that would have been accepted it reports
/// [`Error::AlreadyLoaded`], with any other the failure of that text.
pub proof fn lemma_only_first_success(buffers: Seq<Seq<u8>>, i: int, j: int)
    requires
        0 <= i < j < buffers.len(),
        outcome_at(buffers, i) is Ok,
    ensures
        outcome_at(buffers, j) is Err,
        parsed_buffer(buffers[j]) is Ok ==> outcome_at(buffers, j) == Err::<(), Error>(
            Error::AlreadyLoaded(),
        ),
        parsed_buffer(buffers[j]) is Ok ==> code_of(outcome_at(buffers, j)) == 1000,
        parsed_buffer(buffers[j]) matches Err(e) ==> outcome_at(buffers, j) == Err::<(), Error>(e),
        size_after_all(None, buffers.take(j + 1)) == size_after_all(None, buffers.take(i + 1)),
        size_after_all(None, buffers) == size_after_all(None, buffers.take(i + 1)),
{
    let upto_i = buffers.take(i + 1);
    assert(upto_i.drop_last() == buffers.take(i));
    assert(upto_i.last() == buffers[i]);
    assert(size_after_all(None, upto_i) is Some);
    let upto_j = buffers.take(j);
    assert(upto_j.take(i + 1) == upto_i);
    lemma_loaded_prefix(upto_j, i + 1);
    let past_j = buffers.take(j + 1);
    assert(past_j.take(i + 1) == upto_i);
    lemma_loaded_prefix(past_j, i + 1);
    lemma_loaded_prefix(buffers, i + 1);
}

/// Bytes that are not valid UTF-8 are reported as such whatever the store
/// holds, and the store holds the same afterwards, so a later load of valid
/// text into an empty store can still succeed.
pub proof fn lemma_invalid_utf8_rejected(before: Option<nat>, buffer: Seq<u8>)
    requires
        !valid_utf8(text_bytes(buffer)),
    ensures
        load_outcome(before is Some, buffer) == Err::<(), Error>(Error::InvalidUtf8()),
        code_of(load_outcome(before is Some, buffer)) == 1001,
        size_after(before, buffer) == before,
{
}

/// Text that the engine rejects is reported as such whatever the store holds,
/// and the store holds the same afterwards.
pub proof fn lemma_invalid_policy_rejected(before: Option<nat>, buffer: Seq<u8>, text: Seq<char>)
    requires
        decoded_text(buffer) == Some(text),
        parsed_policy_count(text) is None,
    ensures
        load_outcome(before is Some, buffer) == Err::<(), Error>(Error::PolicyParsing()),
        code_of(load_outcome(before is Some, buffer)) == 1002,
        size_after(before, buffer) == before,
{
}

} // verus!

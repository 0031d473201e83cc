//! The processor: a counter of the items it has been handed, and the record
//! it makes of each.

use vstd::prelude::*;
use vstd::utf8::encode_utf8;
use crate::clock::utc_now_rfc3339;
use crate::decimal::{decimal_digits, decimal_string};
use crate::error::GrantProgramError;
use crate::json::{
    empty_entries, json_bool, json_map_insert, json_map_new, json_number, json_object, json_of,
    json_string, Json,
};

verus! {

/// The length of a text in bytes, as UTF-8.
pub open spec fn byte_length(text: Seq<char>) -> nat {
    encode_utf8(text).len()
}

/// The message of the record of item number `item_number`.
pub open spec fn process_message(item_number: nat) -> Seq<char> {
    "Successfully processed item #"@ + decimal_digits(item_number)
}

/// The data of the record of item number `item_number`: the length of the
/// input in bytes, the instant of processing and the item's number.
pub open spec fn process_data(length: nat, stamp: Seq<char>, item_number: nat) -> Json {
    Json::Object(
        empty_entries().insert("length"@, Json::Integer(length as int)).insert(
            "processed_at"@,
            Json::Text(stamp),
        ).insert("item_number"@, Json::Integer(item_number as int)),
    )
}

/// The summary of a processor that has processed `processed_count` items.
pub open spec fn stats_json(processed_count: nat, verbose: bool) -> Json {
    Json::Object(
        empty_entries().insert("processed_count"@, Json::Integer(processed_count as int)).insert(
            "verbose"@,
            Json::Bool(verbose),
        ),
    )
}

/// The record of one processed item.
#[derive(Debug)]
pub struct ProcessResult {
    /// Whether the item was processed.
    pub success: bool,
    /// What happened, in words.
    pub message: String,
    /// What was recorded about the item, if anything.
    pub data: Option<serde_json::Value>,
}

impl ProcessResult {
    /// The record says that item number `item_number`, of `length` bytes,
    /// was processed at `stamp`.
    pub open spec fn reports(self, length: nat, stamp: Seq<char>, item_number: nat) -> bool {
        &&& self.success
        &&& self.message@ == process_message(item_number)
        &&& self.data matches Some(data) && json_of(data) == process_data(
            length,
            stamp,
            item_number,
        )
    }

    /// The instant of processing that the record holds; empty where it holds
    /// none.
    pub open spec fn stamp(self) -> Seq<char> {
        match self.data {
            Some(data) => match json_of(data) {
                Json::Object(entries) => if entries.dom().contains("processed_at"@) {
                    match entries["processed_at"@] {
                        Json::Text(stamp) => stamp,
                        _ => Seq::empty(),
                    }
                } else {
                    Seq::empty()
                },
                _ => Seq::empty(),
            },
            None => Seq::empty(),
        }
    }
}

/// Counts the items it has been handed.
#[derive(Debug)]
pub struct GrantProgramProcessor {
    /// Whether the processor was asked to be talkative.
    pub verbose: bool,
    /// How many items have been processed so far.
    pub processed_count: usize,
}

impl GrantProgramProcessor {
    /// The processor that has seen nothing yet.
    pub open spec fn fresh(verbose: bool) -> Self {
        GrantProgramProcessor { verbose, processed_count: 0 }
    }

    /// The processor after one more item.
    pub open spec fn advanced(self) -> Self {
        GrantProgramProcessor {
            verbose: self.verbose,
            processed_count: (self.processed_count + 1) as usize,
        }
    }

    /// The processor after `n` more items.
    pub open spec fn advanced_by(self, n: nat) -> Self
        decreases n,
    {
        if n == 0 {
            self
        } else {
            self.advanced_by((n - 1) as nat).advanced()
        }
    }

    /// The summary of the processor as it stands.
    pub open spec fn stats(self) -> Json {
        stats_json(self.processed_count as nat, self.verbose)
    }

    /// A processor that has seen nothing yet.
    pub fn new(verbose: bool) -> (processor: Self)
        ensures
            processor == Self::fresh(verbose),
    {
        GrantProgramProcessor { verbose, processed_count: 0 }
    }

    /// Processes one item at the current instant: counts it and makes its
    /// record. The record's stamp is whatever the clock gave.
    pub fn process(&mut self, data: &str) -> (result: Result<ProcessResult, GrantProgramError>)
        requires
            old(self).processed_count < usize::MAX,
        ensures
            *final(self) == old(self).advanced(),
            result matches Ok(record) && record.reports(
                byte_length(data@),
                record.stamp(),
                final(self).processed_count as nat,
            ),
    {
        let stamp = utc_now_rfc3339();
        let result = self.process_at(data, stamp);
        proof {
            lemma_data_stamp(
                byte_length(data@),
                stamp@,
                self.processed_count as nat,
            );
        }
        result
    }

    /// Processes one item at the instant `stamp`: counts it and makes its
    /// record.
    pub fn process_at(&mut self, data: &str, stamp: String) -> (result: Result<ProcessResult, GrantProgramError>)
        requires
            old(self).processed_count < usize::MAX,
        ensures
            *final(self) == old(self).advanced(),
            result matches Ok(record) && record.reports(
                byte_length(data@),
                stamp@,
                final(self).processed_count as nat,
            ),
    {
        self.processed_count = self.processed_count + 1;
        let message = "Successfully processed item #".to_owned().concat(
            decimal_string(self.processed_count).as_str(),
        );
        let mut entries = json_map_new();
        json_map_insert(&mut entries, "length", json_number(data.as_bytes().len()));
        json_map_insert(&mut entries, "processed_at", json_string(stamp));
        json_map_insert(&mut entries, "item_number", json_number(self.processed_count));
        Ok(ProcessResult { success: true, message, data: Some(json_object(entries)) })
    }

    /// The summary of the processor: how many items it has processed, and
    /// whether it is verbose. The processor is left as it is.
    pub fn get_stats(&self) -> (stats: serde_json::Value)
        ensures
            json_of(stats) == self.stats(),
    {
        let mut entries = json_map_new();
        json_map_insert(&mut entries, "processed_count", json_number(self.processed_count));
        json_map_insert(&mut entries, "verbose", json_bool(self.verbose));
        json_object(entries)
    }
}

/// The three keys of a record's data differ, so each leads to its own
/// value: the length, the stamp and the item's number can all be read back.
pub proof fn lemma_data_members(length: nat, stamp: Seq<char>, item_number: nat)
    ensures
        process_data(length, stamp, item_number) matches Json::Object(entries) && {
            &&& entries.dom() =~= set!["length"@, "processed_at"@, "item_number"@]
            &&& entries["length"@] == Json::Integer(length as int)
            &&& entries["processed_at"@] == Json::Text(stamp)
            &&& entries["item_number"@] == Json::Integer(item_number as int)
        },
{
    reveal_strlit("length");
    reveal_strlit("processed_at");
    reveal_strlit("item_number");
    assert("length"@.len() == 6);
    assert("processed_at"@.len() == 12);
    assert("item_number"@.len() == 11);
}

/// The two keys of a summary differ, so each leads to its own value: the
/// count and the flag can both be read back.
pub proof fn lemma_stats_members(processed_count: nat, verbose: bool)
    ensures
        stats_json(processed_count, verbose) matches Json::Object(entries) && {
            &&& entries.dom() =~= set!["processed_count"@, "verbose"@]
            &&& entries["processed_count"@] == Json::Integer(processed_count as int)
            &&& entries["verbose"@] == Json::Bool(verbose)
        },
{
    reveal_strlit("processed_count");
    reveal_strlit("verbose");
    assert("processed_count"@.len() == 15);
    assert("verbose"@.len() == 7);
}

/// A summary determines the state it was taken from: two summaries that are
/// the same document come from the same count and the same flag. So nothing
/// is lost when a summary is written out and read back as the same
/// document.
pub proof fn lemma_stats_determine_state(
    first_count: nat,
    first_verbose: bool,
    second_count: nat,
    second_verbose: bool,
)
    requires
        stats_json(first_count, first_verbose) == stats_json(second_count, second_verbose),
    ensures
        first_count == second_count,
        first_verbose == second_verbose,
{
    lemma_stats_members(first_count, first_verbose);
    lemma_stats_members(second_count, second_verbose);
}

/// The first item that a new processor is handed is item number one, and
/// its record holds the length of the input.
pub proof fn lemma_first_item(
    verbose: bool,
    record: ProcessResult,
    input: Seq<char>,
    stamp: Seq<char>,
)
    requires
        record.reports(
            byte_length(input),
            stamp,
            GrantProgramProcessor::fresh(verbose).advanced().processed_count as nat,
        ),
    ensures
        GrantProgramProcessor::fresh(verbose).advanced().processed_count == 1,
        record.data matches Some(data) && json_of(data) matches Json::Object(entries) && {
            &&& entries["length"@] == Json::Integer(byte_length(input) as int)
            &&& entries["item_number"@] == Json::Integer(1)
        },
{
    lemma_data_members(byte_length(input), stamp, 1);
}

/// After `n` items a new processor has counted `n`: the count starts at
/// zero, each item adds exactly one, and the flag stays as it was set.
pub proof fn lemma_count_after(verbose: bool, n: nat)
    requires
        n <= usize::MAX,
    ensures
        GrantProgramProcessor::fresh(verbose).advanced_by(n).processed_count == n,
        GrantProgramProcessor::fresh(verbose).advanced_by(n).verbose == verbose,
        n > 0 ==> GrantProgramProcessor::fresh(verbose).advanced_by(n).processed_count
            == GrantProgramProcessor::fresh(verbose).advanced_by(
            (n - 1) as nat,
        ).processed_count + 1,
    decreases n,
{
    if n > 0 {
        lemma_count_after(verbose, (n - 1) as nat);
    }
}

/// The summary of a new processor after `n` items holds `n` and the flag
/// that the processor was made with.
pub proof fn lemma_stats_after(verbose: bool, n: nat)
    requires
        n <= usize::MAX,
    ensures
        GrantProgramProcessor::fresh(verbose).advanced_by(n).stats() == stats_json(n, verbose),
{
    lemma_count_after(verbose, n);
}

/// One more item never lowers the count, and raises it by exactly one
/// wherever the count has room.
pub proof fn lemma_count_grows(processor: GrantProgramProcessor)
    requires
        processor.processed_count < usize::MAX,
    ensures
        processor.advanced().processed_count == processor.processed_count + 1,
        processor.advanced().verbose == processor.verbose,
{
}

proof fn lemma_data_stamp(length: nat, stamp: Seq<char>, item_number: nat)
    ensures
        forall|record: ProcessResult| #[trigger]
            record.reports(length, stamp, item_number) ==> record.stamp() == stamp,
{
    lemma_data_members(length, stamp, item_number);
}

} // verus!

//! The rewriter: decode every batch of a Parquet file held in memory,
//! refuse an empty input, and re-encode the batches in their original
//! order with dictionary encoding enabled.

use vstd::prelude::*;

use crate::codec::{
    baseline_marked, batch_fields, batch_rows, decode_batches, dictionary_marked,
    encoder_accepts, file_fields, file_rows, parquet_error_text, parquet_file, parquet_readable,
    rows_of_batches, writer_baseline, writer_dictionary, writer_fields, writer_finish,
    writer_new, writer_rows, writer_write, Batch,
};
use crate::config::{FormatVersion, WriterConfiguration};
use crate::error::RewriteError;

verus! {

/// How many rows the reader is asked to put in one batch. A memory and
/// throughput knob only; it has no bearing on what the rewrite preserves.
pub const BATCH_ROW_LIMIT: usize = 8192;

/// What a successful rewrite guarantees of the output bytes against the
/// input bytes: the output is a readable Parquet file that holds the same
/// schema fields and the same rows in the same order.
pub open spec fn rewrite_fidelity(input: Seq<u8>, output: Seq<u8>) -> bool {
    &&& parquet_readable(output)
    &&& file_fields(output) == file_fields(input)
    &&& file_rows(output) == file_rows(input)
}

/// Exactly when a rewrite succeeds: the input bytes decode as a Parquet
/// file, the file holds at least one row, and the output encoder supports
/// its schema. All three are functions of the input bytes alone.
pub open spec fn rewrite_succeeds(input: Seq<u8>) -> bool {
    &&& parquet_readable(input)
    &&& file_rows(input).len() > 0
    &&& encoder_accepts(file_fields(input))
}

/// A rewrite result with its output bytes abstracted to their sequence.
pub open spec fn rewrite_result_view(r: Result<Vec<u8>, RewriteError>) -> Result<
    Seq<u8>,
    RewriteError,
> {
    match r {
        Ok(v) => Ok(v@),
        Err(e) => Err(e),
    }
}

/// The whole outcome classification that `rewrite_bytes` promises: the
/// result is `Ok` exactly when `rewrite_succeeds`, and then the output is
/// faithful, dictionary-encoded and stamped with the baseline version;
/// `EmptyInputError` comes exactly on a readable file with no rows;
/// `FormatError` exactly on unreadable bytes or an unsupported schema;
/// `IoError` never. Every class is a function of the input bytes alone.
pub open spec fn rewrite_admits(input: Seq<u8>, r: Result<Seq<u8>, RewriteError>) -> bool {
    &&& (r is Ok <==> rewrite_succeeds(input))
    &&& r is Ok ==> rewrite_fidelity(input, r->Ok_0) && dictionary_marked(r->Ok_0)
        && baseline_marked(r->Ok_0)
    &&& ((r is Err && r->Err_0 is EmptyInputError) <==> (parquet_readable(input) && file_rows(
        input,
    ).len() == 0))
    &&& ((r is Err && r->Err_0 is FormatError) <==> (!parquet_readable(input) || (
    parquet_readable(input) && file_rows(input).len() > 0 && !encoder_accepts(
        file_fields(input),
    ))))
    &&& (r is Err ==> !(r->Err_0 is IoError))
}

/// Rewrites a Parquet file, given as its bytes, into a new Parquet file
/// with dictionary encoding enabled and the baseline format version.
///
/// The input is decoded eagerly into all of its record batches; an input
/// with none is refused. The schema is taken from the first batch — every
/// batch of one file carries the same schema — and every batch is written
/// out in its original order.
///
/// `rewrite_admits` fixes the whole outcome: success exactly on a readable,
/// non-empty input whose schema the encoder supports, and each error class
/// exactly on its own inputs.
pub fn rewrite_bytes(input: &Vec<u8>) -> (r: Result<Vec<u8>, RewriteError>)
    ensures
        rewrite_admits(input@, rewrite_result_view(r)),
{
    let batches = match decode_batches(input, BATCH_ROW_LIMIT) {
        Ok(bs) => bs,
        Err(e) => {
            return Err(RewriteError::FormatError(parquet_error_text(&e)));
        },
    };
    if batches.len() == 0 {
        return Err(RewriteError::EmptyInputError);
    }
    encode_batches(&batches, &WriterConfiguration::dictionary_rewrite())
}

/// Writes every batch, in order, through a fresh writer that is bound to
/// the first batch's schema and configured by `config`, and finishes the
/// file. All batches must carry one schema — the writer takes a batch
/// whole only when its fields equal the writer's — and the output then
/// holds exactly their rows.
pub fn encode_batches(batches: &Vec<Batch>, config: &WriterConfiguration) -> (r: Result<
    Vec<u8>,
    RewriteError,
>)
    requires
        batches@.len() > 0,
        forall|i: int|
            0 <= i < batches@.len() ==> #[trigger] batch_fields(batches@[i]) == batch_fields(
                batches@[0],
            ),
    ensures
        r is Ok ==> parquet_file(r->Ok_0@) == Some(
            (batch_fields(batches@[0]), rows_of_batches(batches@)),
        ),
        r is Ok ==> (config.dictionary_enabled ==> dictionary_marked(r->Ok_0@)),
        r is Ok ==> (baseline_marked(r->Ok_0@) <==> config.version == FormatVersion::V1_0),
        r is Err ==> r->Err_0 is FormatError,
        encoder_accepts(batch_fields(batches@[0])) ==> r is Ok,
        r is Ok && batch_rows(batches@[0]).len() > 0 ==> encoder_accepts(
            batch_fields(batches@[0]),
        ),
{
    let mut writer = match writer_new(&batches[0], config) {
        Ok(w) => w,
        Err(e) => {
            return Err(RewriteError::FormatError(parquet_error_text(&e)));
        },
    };
    let mut i: usize = 0;
    while i < batches.len()
        invariant
            i <= batches@.len(),
            batches@.len() > 0,
            forall|j: int|
                0 <= j < batches@.len() ==> #[trigger] batch_fields(batches@[j]) == batch_fields(
                    batches@[0],
                ),
            writer_fields(writer) == batch_fields(batches@[0]),
            writer_dictionary(writer) == config.dictionary_enabled,
            writer_baseline(writer) == (config.version == FormatVersion::V1_0),
            writer_rows(writer) == rows_of_batches(batches@.take(i as int)),
            i > 0 && batch_rows(batches@[0]).len() > 0 ==> encoder_accepts(
                batch_fields(batches@[0]),
            ),
        decreases batches@.len() - i,
    {
        match writer_write(&mut writer, &batches[i]) {
            Ok(u) => u,
            Err(e) => {
                return Err(RewriteError::FormatError(parquet_error_text(&e)));
            },
        };
        proof {
            lemma_rows_of_batches_take_step(batches@, i as int);
        }
        i = i + 1;
    }
    proof {
        assert(batches@.take(batches@.len() as int) =~= batches@);
    }
    match writer_finish(writer) {
        Ok(out) => Ok(out),
        Err(e) => Err(RewriteError::FormatError(parquet_error_text(&e))),
    }
}

/// Taking one more batch appends exactly that batch's rows behind the rows
/// of the batches taken so far.
proof fn lemma_rows_of_batches_take_step(bs: Seq<Batch>, i: int)
    requires
        0 <= i < bs.len(),
    ensures
        rows_of_batches(bs.take(i + 1)) == rows_of_batches(bs.take(i)) + batch_rows(bs[i]),
{
    let f = |b: Batch| batch_rows(b);
    assert(bs.take(i + 1).map_values(f) =~= bs.take(i).map_values(f).push(batch_rows(bs[i])));
    bs.take(i).map_values(f).lemma_flatten_push(batch_rows(bs[i]));
}

/// Law: a successful rewrite preserves the total row count — the output's
/// row sequence equals the input's, so its length does too.
pub proof fn lemma_rewrite_preserves_row_count(input: Seq<u8>, output: Seq<u8>)
    requires
        rewrite_fidelity(input, output),
    ensures
        file_rows(output).len() == file_rows(input).len(),
{
}

/// Law: rewriting is idempotent at the data level. When a rewrite of an
/// input that holds at least one row produces `first`, then `first` itself
/// holds rows — so a second rewrite of it is not refused as empty — and
/// any output the second rewrite produces carries the same schema fields
/// and the same rows as `first`, and so as the original input.
pub proof fn lemma_rewrite_idempotent(input: Seq<u8>, first: Seq<u8>, second: Seq<u8>)
    requires
        file_rows(input).len() > 0,
        rewrite_fidelity(input, first),
        rewrite_fidelity(first, second),
    ensures
        file_rows(first).len() > 0,
        file_fields(second) == file_fields(first),
        file_rows(second) == file_rows(first),
        rewrite_fidelity(input, second),
{
}

/// Law: the outcome is a function of the input bytes alone. Any two
/// results that the rewrite's contract admits for one input share their
/// status and their error class, and on success their outputs decode to
/// the same schema fields and the same rows.
pub proof fn lemma_rewrite_outcome_deterministic(
    input: Seq<u8>,
    r1: Result<Seq<u8>, RewriteError>,
    r2: Result<Seq<u8>, RewriteError>,
)
    requires
        rewrite_admits(input, r1),
        rewrite_admits(input, r2),
    ensures
        r1 is Ok <==> r2 is Ok,
        (r1 is Err && r1->Err_0 is EmptyInputError) <==> (r2 is Err
            && r2->Err_0 is EmptyInputError),
        (r1 is Err && r1->Err_0 is FormatError) <==> (r2 is Err && r2->Err_0 is FormatError),
        r1 is Ok ==> file_fields(r1->Ok_0) == file_fields(r2->Ok_0),
        r1 is Ok ==> file_rows(r1->Ok_0) == file_rows(r2->Ok_0),
{
}

} // verus!

//! Replay of a segment's entries.
//!
//! A reader walks the frames that follow the header, yielding each
//! decoded entry until the first clean end of input or the first
//! irrecoverable frame. The walk itself is defined here over segment
//! bytes, one step per frame, so its behaviour — every complete valid
//! frame before the first failure is recovered, and nothing after it —
//! is verified. The streaming reader performs the file I/O and takes
//! each step through [`read_entry_at`].

use vstd::prelude::*;

use crate::error::Error;
use crate::util::msg_two_nums;
use crate::wal::header::{spec_header_bytes_valid, spec_header_parsed_from, WALHeader,
    WAL_HEADER_SIZE};
use crate::wal::log_entry::{spec_entry_bounded, spec_entry_encoding, spec_frame_entry,
    spec_frame_ok, EntryModel, WALEntry, MAX_ENTRY_SIZE};
use crate::format::FileHeader;

verus! {

use vstd::bytes::{spec_u32_from_le_bytes, u32_from_le_bytes};

/// Statistics of one reader: how much it read and how its reusable
/// frame buffer behaved, for tuning the initial capacity.
#[derive(Debug, Clone, Copy, PartialEq, Eq, Structural)]
pub struct ReaderStats {
    /// Entries read so far.
    pub entries_read: usize,
    /// Bytes read so far, length prefixes included.
    pub bytes_read: usize,
    /// Largest capacity the frame buffer has reached.
    pub peak_buffer_size: usize,
    /// How often the frame buffer's capacity grew.
    pub buffer_resizes: usize,
}

impl ReaderStats {
    /// Fresh statistics, all zero.
    pub fn new() -> (r: Self)
        ensures
            r == (ReaderStats {
                entries_read: 0,
                bytes_read: 0,
                peak_buffer_size: 0,
                buffer_resizes: 0,
            }),
    {
        ReaderStats { entries_read: 0, bytes_read: 0, peak_buffer_size: 0, buffer_resizes: 0 }
    }
}

/// Where the frame starting at `pos` ends.
pub open spec fn spec_next_frame_end(data: Seq<u8>, pos: int) -> int {
    pos + 4 + spec_u32_from_le_bytes(data.subrange(pos, pos + 4)) as int
}

/// Whether one complete, valid frame starts at `pos`: the length
/// prefix is present and in bounds, the whole frame lies within the
/// data, and it decodes.
pub open spec fn spec_step_ok(data: Seq<u8>, pos: int) -> bool {
    let l = spec_u32_from_le_bytes(data.subrange(pos, pos + 4)) as int;
    &&& pos + 4 <= data.len()
    &&& l <= MAX_ENTRY_SIZE - 4
    &&& pos + 4 + l <= data.len()
    &&& spec_frame_ok(data.subrange(pos, pos + 4 + l))
}

/// The entries replayed from `pos` on: each complete valid frame in
/// turn, stopping at the first position where no such frame starts.
pub open spec fn spec_replay(data: Seq<u8>, pos: int) -> Seq<EntryModel>
    decreases data.len() - pos
        when 0 <= pos <= data.len()
{
    if pos == data.len() {
        Seq::empty()
    } else if spec_step_ok(data, pos) {
        seq![spec_frame_entry(data.subrange(pos, spec_next_frame_end(data, pos)))] + spec_replay(
            data,
            spec_next_frame_end(data, pos),
        )
    } else {
        Seq::empty()
    }
}

/// Whether replay from `pos` ends cleanly, at the exact end of the
/// data rather than at a torn or corrupt frame.
pub open spec fn spec_replay_clean(data: Seq<u8>, pos: int) -> bool
    decreases data.len() - pos
        when 0 <= pos <= data.len()
{
    if pos == data.len() {
        true
    } else if spec_step_ok(data, pos) {
        spec_replay_clean(data, spec_next_frame_end(data, pos))
    } else {
        false
    }
}

/// Reads the entry whose frame starts at `pos`.
///
/// Returns `Ok(None)` exactly at the clean end of the data;
/// `Ok(Some((entry, next)))` exactly when a complete valid frame
/// starts at `pos`, with `next` the offset just past it; and a
/// `Corruption` error otherwise — a torn length prefix, a length
/// beyond the frame maximum, a frame overrunning the data, or a frame
/// that does not decode.
pub fn read_entry_at(data: &[u8], pos: usize) -> (r: Result<Option<(WALEntry, usize)>, Error>)
    requires
        pos <= data@.len(),
    ensures
        (r matches Ok(None)) <==> pos == data@.len(),
        (r matches Ok(Some(p)) ==> spec_step_ok(data@, pos as int)),
        (spec_step_ok(data@, pos as int) ==> r matches Ok(Some(p))),
        (r matches Ok(Some(p)) ==> p.1 == spec_next_frame_end(data@, pos as int) && pos < p.1
            <= data@.len() && p.0@ == spec_frame_entry(
            data@.subrange(pos as int, p.1 as int),
        )),
        r matches Err(e) ==> e matches Error::Corruption(_),
{
    let n = data.len();
    if pos == n {
        return Ok(None);
    }
    if n - pos < 4 {
        return Err(Error::Corruption(
            "WAL entry truncated: partial length prefix".to_owned(),
        ));
    }

    let length = u32_from_le_bytes(&data[pos..pos + 4]) as usize;
    if length > MAX_ENTRY_SIZE - 4 {
        return Err(Error::Corruption(msg_two_nums(
            "Entry size ",
            length as u64,
            " exceeds maximum ",
            (MAX_ENTRY_SIZE - 4) as u64,
            "",
        )));
    }
    if n - pos - 4 < length {
        return Err(Error::Corruption("Unexpected EOF while reading entry".to_owned()));
    }

    let next = pos + 4 + length;
    match WALEntry::decode(&data[pos..next]) {
        Ok(e) => Ok(Some((e, next))),
        Err(err) => Err(err),
    }
}

/// Reads a frame's body length from its 4-byte length prefix,
/// refusing a length beyond the frame maximum. The streaming reader
/// uses this to size the read of the frame body.
pub fn frame_body_length(prefix: &[u8]) -> (r: Result<usize, Error>)
    requires
        prefix@.len() == 4,
    ensures
        r is Ok <==> spec_u32_from_le_bytes(prefix@) <= MAX_ENTRY_SIZE - 4,
        r matches Ok(l) ==> l == spec_u32_from_le_bytes(prefix@),
        r matches Err(e) ==> e matches Error::Corruption(_),
{
    let length = u32_from_le_bytes(prefix) as usize;
    if length > MAX_ENTRY_SIZE - 4 {
        return Err(Error::Corruption(msg_two_nums(
            "Entry size ",
            length as u64,
            " exceeds maximum ",
            (MAX_ENTRY_SIZE - 4) as u64,
            "",
        )));
    }
    Ok(length)
}

/// Replays every entry from `start` on.
///
/// Returns the entries of all complete valid frames before the first
/// failure, in order, and `None` when the data ends cleanly at a
/// frame boundary — or the `Corruption` error met at the first torn
/// or corrupt frame. A torn tail never hides the valid frames before
/// it.
pub fn replay_entries(data: &[u8], start: usize) -> (r: (Vec<WALEntry>, Option<Error>))
    requires
        start <= data@.len(),
    ensures
        r.0@.map_values(|e: WALEntry| e@) == spec_replay(data@, start as int),
        (r.1 is None) <==> spec_replay_clean(data@, start as int),
        r.1 matches Some(e) ==> e matches Error::Corruption(_),
{
    let mut entries: Vec<WALEntry> = Vec::new();
    let mut pos = start;
    loop
        invariant
            start <= pos <= data@.len(),
            spec_replay(data@, start as int) == entries@.map_values(|e: WALEntry| e@)
                + spec_replay(data@, pos as int),
            spec_replay_clean(data@, start as int) == spec_replay_clean(data@, pos as int),
        decreases data@.len() - pos,
    {
        let step = read_entry_at(data, pos);
        match step {
            Ok(None) => {
                proof {
                    assert(spec_replay(data@, pos as int) =~= Seq::<EntryModel>::empty());
                    assert(spec_replay(data@, start as int) =~= entries@.map_values(
                        |e: WALEntry| e@,
                    ));
                }
                return (entries, None);
            },
            Ok(Some((e, next))) => {
                proof {
                    assert(spec_replay(data@, pos as int) == seq![
                        spec_frame_entry(data@.subrange(pos as int, next as int)),
                    ] + spec_replay(data@, next as int));
                }
                let ghost old_entries = entries@;
                entries.push(e);
                proof {
                    assert(entries@.map_values(|x: WALEntry| x@) =~= old_entries.map_values(
                        |x: WALEntry| x@,
                    ).push(e@));
                    assert(old_entries.map_values(|x: WALEntry| x@).push(e@) =~= old_entries
                        .map_values(|x: WALEntry| x@) + seq![e@]);
                    assert(spec_replay(data@, start as int) =~= entries@.map_values(
                        |x: WALEntry| x@,
                    ) + spec_replay(data@, next as int));
                }
                pos = next;
            },
            Err(err) => {
                proof {
                    assert(spec_replay(data@, pos as int) =~= Seq::<EntryModel>::empty());
                    assert(spec_replay(data@, start as int) =~= entries@.map_values(
                        |e: WALEntry| e@,
                    ));
                }
                return (entries, Some(err));
            },
        }
    }
}

/// Replays a whole segment image: decodes and validates the header,
/// then replays the entries from the header's entry-start offset.
///
/// Fails exactly when the leading bytes do not hold a valid header.
/// On success the entries and the replay outcome are as
/// [`replay_entries`] describes; an entry-start offset beyond the
/// data yields no entries and a clean end.
pub fn replay_segment(data: &[u8]) -> (r: Result<(WALHeader, Vec<WALEntry>, Option<Error>), Error>)
    ensures
        r is Ok <==> data@.len() >= WAL_HEADER_SIZE && spec_header_bytes_valid(data@),
        r matches Ok(t) ==> spec_header_parsed_from(t.0, data@),
        r matches Ok(t) ==> {
            let start = if t.0.entry_start_offset <= data@.len() {
                t.0.entry_start_offset as int
            } else {
                data@.len() as int
            };
            &&& t.1@.map_values(|e: WALEntry| e@) == spec_replay(data@, start)
            &&& ((t.2 is None) <==> spec_replay_clean(data@, start))
            &&& (t.2 matches Some(e) ==> e matches Error::Corruption(_))
        },
        r matches Err(e) ==> e matches Error::Corruption(_),
{
    let header = match WALHeader::decode(data) {
        Ok(h) => h,
        Err(e) => {
            return Err(e);
        },
    };
    let start = if (header.entry_start_offset as usize) <= data.len() {
        header.entry_start_offset as usize
    } else {
        data.len()
    };
    let (entries, outcome) = replay_entries(data, start);
    Ok((header, entries, outcome))
}

/// The byte image of a sequence of entries: their frames, one after
/// another.
pub open spec fn spec_concat_encodings(models: Seq<EntryModel>) -> Seq<u8>
    decreases models.len(),
{
    if models.len() == 0 {
        Seq::empty()
    } else {
        spec_entry_encoding(models[0]) + spec_concat_encodings(models.drop_first())
    }
}

/// The total frame length of a sequence of entries: 25 bytes of
/// fixed fields plus the key and value, for each.
pub open spec fn spec_frames_len(models: Seq<EntryModel>) -> int
    decreases models.len(),
{
    if models.len() == 0 {
        0
    } else {
        25 + models[0].key.len() + models[0].value.len() + spec_frames_len(models.drop_first())
    }
}

/// Size accounting: the byte image of a sequence of entries occupies
/// exactly the sum of their frame sizes, so a segment that holds them
/// is the 64-byte header plus that sum — the amount by which the
/// writer's size counter advances, one frame at a time.
pub proof fn lemma_concat_encodings_len(models: Seq<EntryModel>)
    ensures
        spec_concat_encodings(models).len() == spec_frames_len(models),
    decreases models.len(),
{
    if models.len() > 0 {
        vstd::bytes::lemma_auto_spec_u32_to_from_le_bytes();
        vstd::bytes::lemma_auto_spec_u64_to_from_le_bytes();
        assert(spec_entry_encoding(models[0]).len() == 25 + models[0].key.len()
            + models[0].value.len());
        lemma_concat_encodings_len(models.drop_first());
    }
}

proof fn lemma_replay_shift_at(prefix: Seq<u8>, rest: Seq<u8>, pos: int)
    requires
        0 <= pos <= rest.len(),
    ensures
        spec_replay(prefix + rest, prefix.len() + pos) == spec_replay(rest, pos),
        spec_replay_clean(prefix + rest, prefix.len() + pos) == spec_replay_clean(rest, pos),
    decreases rest.len() - pos,
{
    let data = prefix + rest;
    let p = prefix.len() + pos;
    if pos == rest.len() {
        assert(spec_replay(data, p) =~= Seq::<EntryModel>::empty());
        assert(spec_replay(rest, pos) =~= Seq::<EntryModel>::empty());
    } else {
        if pos + 4 <= rest.len() {
            assert(data.subrange(p, p + 4) =~= rest.subrange(pos, pos + 4));
            let l = spec_u32_from_le_bytes(rest.subrange(pos, pos + 4)) as int;
            if l <= MAX_ENTRY_SIZE - 4 && pos + 4 + l <= rest.len() {
                assert(data.subrange(p, p + 4 + l) =~= rest.subrange(pos, pos + 4 + l));
                assert(spec_step_ok(data, p) == spec_step_ok(rest, pos));
                if spec_step_ok(rest, pos) {
                    assert(spec_next_frame_end(data, p) == prefix.len() + (pos + 4 + l));
                    lemma_replay_shift_at(prefix, rest, pos + 4 + l);
                }
            } else {
                assert(!spec_step_ok(rest, pos));
                assert(!spec_step_ok(data, p));
            }
        } else {
            assert(!spec_step_ok(rest, pos));
            assert(!spec_step_ok(data, p));
        }
    }
}

/// Replay distributes over a leading run of well-formed frames: on
/// the image of in-bounds entries followed by any tail, replay yields
/// exactly those entries and then continues into the tail alone.
pub proof fn lemma_replay_concat(models: Seq<EntryModel>, tail: Seq<u8>)
    requires
        forall|i: int| 0 <= i < models.len() ==> spec_entry_bounded(#[trigger] models[i]),
    ensures
        spec_replay(spec_concat_encodings(models) + tail, 0) == models + spec_replay(tail, 0),
        spec_replay_clean(spec_concat_encodings(models) + tail, 0) == spec_replay_clean(tail, 0),
    decreases models.len(),
{
    if models.len() == 0 {
        assert(spec_concat_encodings(models) + tail =~= tail);
        assert(models + spec_replay(tail, 0) =~= spec_replay(tail, 0));
    } else {
        let m = models[0];
        let e = spec_entry_encoding(m);
        let restm = models.drop_first();
        let restbytes = spec_concat_encodings(restm) + tail;
        let data = spec_concat_encodings(models) + tail;
        assert(data =~= e + restbytes);
        crate::wal::log_entry::lemma_entry_roundtrip(m);
        let elen = e.len() as int;
        assert(elen == 25 + m.key.len() + m.value.len());
        let l = spec_u32_from_le_bytes(e.subrange(0, 4)) as int;
        assert(l == elen - 4) by {
            assert(spec_frame_ok(e));
        }
        assert(data.subrange(0, 4) =~= e.subrange(0, 4));
        assert(data.subrange(0, elen) =~= e);
        assert(spec_step_ok(data, 0));
        assert(spec_next_frame_end(data, 0) == elen);
        assert(spec_frame_entry(data.subrange(0, elen)) == m);
        lemma_replay_shift_at(e, restbytes, 0);
        assert(restbytes.skip(0) =~= restbytes);
        lemma_replay_concat(restm, tail);
        assert(spec_replay(data, 0) =~= seq![m] + (restm + spec_replay(tail, 0)));
        assert(seq![m] + (restm + spec_replay(tail, 0)) =~= models + spec_replay(tail, 0));
        assert(spec_replay_clean(data, 0) == spec_replay_clean(tail, 0));
    }
}

/// Round trip of a whole log: replaying the image of any sequence of
/// in-bounds entries yields exactly those entries, in order, with a
/// clean end — appends are preserved through encode, concatenation
/// and replay.
pub proof fn lemma_replay_round_trip(models: Seq<EntryModel>)
    requires
        forall|i: int| 0 <= i < models.len() ==> spec_entry_bounded(#[trigger] models[i]),
    ensures
        spec_replay(spec_concat_encodings(models), 0) == models,
        spec_replay_clean(spec_concat_encodings(models), 0),
{
    lemma_replay_concat(models, Seq::empty());
    assert(spec_concat_encodings(models) + Seq::<u8>::empty() =~= spec_concat_encodings(models));
    assert(spec_replay(Seq::<u8>::empty(), 0) =~= Seq::<EntryModel>::empty());
    assert(models + Seq::<EntryModel>::empty() =~= models);
}

/// Truncation recovery: when the image of a log is followed by a torn
/// tail — bytes at which no complete valid frame starts — replay
/// still yields every complete entry, and reports the end as unclean
/// rather than returning anything from the tail.
pub proof fn lemma_replay_truncated(models: Seq<EntryModel>, tail: Seq<u8>)
    requires
        forall|i: int| 0 <= i < models.len() ==> spec_entry_bounded(#[trigger] models[i]),
        tail.len() > 0,
        !spec_step_ok(tail, 0),
    ensures
        spec_replay(spec_concat_encodings(models) + tail, 0) == models,
        !spec_replay_clean(spec_concat_encodings(models) + tail, 0),
{
    lemma_replay_concat(models, tail);
    assert(spec_replay(tail, 0) =~= Seq::<EntryModel>::empty());
    assert(models + Seq::<EntryModel>::empty() =~= models);
}

} // verus!

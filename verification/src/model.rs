//! A model of the external flash behind the firmware, and what the
//! commands of a sector-coherent write do to it.

use vstd::prelude::*;
use crate::firmware::Command;
use crate::flash_rover::Span;
use crate::job::{
    chunk_count, chunk_len, chunk_of, chunk_start, chunks_join_to_the_whole, chunks_joined,
    chunks_tile_the_transfer, Task,
};

verus! {

/// The flash after the `length` bytes from `offset` are erased: erased
/// bytes read as `0xFF`.
pub open spec fn erased(flash: Seq<u8>, offset: int, length: int) -> Seq<u8> {
    Seq::new(
        flash.len(),
        |i: int|
            if offset <= i < offset + length {
                0xFFu8
            } else {
                flash[i]
            },
    )
}

/// The flash after `bytes` are programmed from `offset` on: programming
/// can clear bits and cannot set them.
pub open spec fn programmed(flash: Seq<u8>, offset: int, bytes: Seq<u8>) -> Seq<u8> {
    Seq::new(
        flash.len(),
        |i: int|
            if offset <= i < offset + bytes.len() {
                flash[i] & bytes[i - offset]
            } else {
                flash[i]
            },
    )
}

/// The flash after the firmware has served `command`, with `buffer` in the
/// staging buffer. The erase is the one of a range of whole sectors.
pub open spec fn served(flash: Seq<u8>, buffer: Seq<u8>, command: Command) -> Seq<u8> {
    match command {
        Command::SectorErase { offset, length } => erased(flash, offset as int, length as int),
        Command::MassErase => erased(flash, 0, flash.len() as int),
        Command::WriteBlock { offset, length } => programmed(
            flash,
            offset as int,
            buffer.subrange(0, length as int),
        ),
        _ => flash,
    }
}

/// The flash after the first `n` chunks of a write of `data`: each chunk
/// is staged in the buffer and then written by its command.
pub open spec fn written(flash: Seq<u8>, task: Task, data: Seq<u8>, n: int) -> Seq<u8>
    decreases n,
{
    if n <= 0 {
        flash
    } else {
        served(written(flash, task, data, n - 1), chunk_of(data, n - 1), task.command(n - 1))
    }
}

proof fn lemma_programming_erased_byte(b: u8)
    ensures
        0xFFu8 & b == b,
{
    assert(0xFFu8 & b == b) by (bit_vector);
}

proof fn lemma_written(flash: Seq<u8>, first: u32, image: Seq<u8>, n: int)
    requires
        first + image.len() <= flash.len(),
        first + image.len() <= 0x1_0000_0000,
        image.len() <= u32::MAX,
        0 <= n <= chunk_count(image.len() as int),
        forall|i: int| first <= i < first + image.len() ==> flash[i] == 0xFFu8,
    ensures
        ({
            let task = Task::Write { offset: first, length: image.len() as u32 };
            let after = written(flash, task, image, n);
            let done = if n == 0 {
                0
            } else {
                chunk_start(n - 1) + chunk_len(image.len() as int, n - 1)
            };
            &&& after.len() == flash.len()
            &&& 0 <= done <= image.len()
            &&& n == chunk_count(image.len() as int) ==> done == image.len()
            &&& forall|i: int|
                0 <= i < flash.len() ==> after[i] == (if first <= i < first + done {
                    image[i - first]
                } else {
                    flash[i]
                })
        }),
    decreases n,
{
    let length = image.len() as int;
    let task = Task::Write { offset: first, length: image.len() as u32 };
    if n > 0 {
        lemma_written(flash, first, image, n - 1);
        chunks_tile_the_transfer(length, n - 1);
        if n > 1 {
            chunks_tile_the_transfer(length, n - 2);
        }
        let before = written(flash, task, image, n - 1);
        let chunk = chunk_of(image, n - 1);
        let start = chunk_start(n - 1);
        let len = chunk_len(length, n - 1);
        assert(task.command(n - 1) == Command::WriteBlock {
            offset: (first + start) as u32,
            length: len as u32,
        });
        assert(chunk.subrange(0, len) =~= chunk);
        let after = written(flash, task, image, n);
        assert(after == programmed(before, first + start, chunk));
        assert forall|i: int| 0 <= i < flash.len() implies after[i] == (if first <= i < first
            + start + len {
            image[i - first]
        } else {
            flash[i]
        }) by {
            if first + start <= i < first + start + len {
                lemma_programming_erased_byte(chunk[i - first - start]);
                assert(before[i] == flash[i]);
                assert(chunk[i - first - start] == image[i - first]);
            }
        }
    }
}

/// A sector-coherent write changes the payload's range and nothing else.
/// Let the image be what the flash holds before the payload in its first
/// sector, then the payload, then what the flash holds after it up to the
/// end of its last sector. After the aligned range is erased and the image
/// written over it chunk by chunk, the range holds the image: every byte of
/// the payload's range is the payload's, and every other byte of the flash
/// is what it was.
pub proof fn shadow_write_changes_the_payload_range_only(
    flash: Seq<u8>,
    offset: u32,
    payload: Seq<u8>,
)
    requires
        offset + payload.len() <= u32::MAX,
        Span::of(offset, payload.len() as u32).total() <= u32::MAX,
        Span::of(offset, payload.len() as u32).first_address + Span::of(
            offset,
            payload.len() as u32,
        ).total() <= flash.len(),
    ensures
        ({
            let span = Span::of(offset, payload.len() as u32);
            let prefix = flash.subrange(span.first_address as int, offset as int);
            let suffix = flash.subrange(
                span.last_address as int,
                span.last_address + span.last_pad,
            );
            let image = prefix + payload + suffix;
            let erase = Command::SectorErase {
                offset: span.first_address,
                length: image.len() as u32,
            };
            let write = Task::Write { offset: span.first_address, length: image.len() as u32 };
            let after = written(
                served(flash, Seq::empty(), erase),
                write,
                image,
                chunk_count(image.len() as int),
            );
            &&& image.len() == span.total()
            &&& after.len() == flash.len()
            &&& after.subrange(span.first_address as int, span.first_address + span.total())
                == image
            &&& forall|i: int|
                0 <= i < flash.len() ==> after[i] == (if offset <= i < offset + payload.len() {
                    payload[i - offset]
                } else {
                    flash[i]
                })
        }),
{
    let span = Span::of(offset, payload.len() as u32);
    Span::span_is_aligned(offset, payload.len() as u32);
    let first = span.first_address;
    let prefix = flash.subrange(first as int, offset as int);
    let suffix = flash.subrange(span.last_address as int, span.last_address + span.last_pad);
    let image = prefix + payload + suffix;
    let erase = Command::SectorErase { offset: first, length: image.len() as u32 };
    let write = Task::Write { offset: first, length: image.len() as u32 };
    let blank = served(flash, Seq::empty(), erase);
    let n = chunk_count(image.len() as int);
    lemma_written(blank, first, image, n);
    let after = written(blank, write, image, n);
    assert forall|i: int| 0 <= i < flash.len() implies after[i] == (if offset <= i < offset
        + payload.len() {
        payload[i - offset]
    } else {
        flash[i]
    }) by {
        if first <= i < first + image.len() {
            assert(after[i] == image[i - first]);
            if i < offset {
                assert(image[i - first] == prefix[i - first]);
            } else if i < offset + payload.len() {
                assert(image[i - first] == payload[i - offset]);
            } else {
                assert(image[i - first] == suffix[i - span.last_address]);
            }
        }
    }
    assert(after.subrange(first as int, first + span.total()) =~= image);
}

/// The bytes that the firmware stages for a read command, and that the
/// bulk read after it brings.
pub open spec fn fetched(flash: Seq<u8>, command: Command) -> Seq<u8> {
    match command {
        Command::ReadBlock { offset, length } => flash.subrange(offset as int, offset + length),
        _ => Seq::empty(),
    }
}

/// What the first `n` chunks of a read gather.
pub open spec fn gathered(flash: Seq<u8>, task: Task, n: int) -> Seq<u8>
    decreases n,
{
    if n <= 0 {
        Seq::empty()
    } else {
        gathered(flash, task, n - 1) + fetched(flash, task.command(n - 1))
    }
}

proof fn lemma_gathered(flash: Seq<u8>, offset: u32, length: u32, n: int)
    requires
        offset + length <= flash.len(),
        offset + length <= 0x1_0000_0000,
        0 <= n <= chunk_count(length as int),
    ensures
        gathered(flash, Task::Read { offset, length }, n) == chunks_joined(
            flash.subrange(offset as int, offset + length),
            n,
        ),
    decreases n,
{
    if n > 0 {
        lemma_gathered(flash, offset, length, n - 1);
        chunks_tile_the_transfer(length as int, n - 1);
        let range = flash.subrange(offset as int, offset + length);
        let task = Task::Read { offset, length };
        assert(fetched(flash, task.command(n - 1)) =~= chunk_of(range, n - 1));
    }
}

/// A read brings the range that was asked for: the chunks that its
/// commands stage, gathered in order, are what the flash holds there.
pub proof fn read_gathers_the_range(flash: Seq<u8>, offset: u32, length: u32)
    requires
        offset + length <= flash.len(),
        offset + length <= 0x1_0000_0000,
    ensures
        gathered(flash, Task::Read { offset, length }, chunk_count(length as int))
            == flash.subrange(offset as int, offset + length),
{
    lemma_gathered(flash, offset, length, chunk_count(length as int));
    chunks_join_to_the_whole(flash.subrange(offset as int, offset + length));
}

} // verus!

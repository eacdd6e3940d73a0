//! How a large file is cut into parts.

use vstd::prelude::*;

verus! {

/// A file with more bytes than this is uploaded in parts: 100 MiB.
pub const MULTIPART_THRESHOLD: u64 = 104_857_600;

/// How many bytes a part has, unless it is the last one: 10 MiB.
pub const MULTIPART_CHUNK_SIZE: u64 = 10_485_760;

/// How many parts a file of `size` bytes has: the least number of parts that
/// hold it.
pub open spec fn part_count_of(size: u64) -> int {
    (size + MULTIPART_CHUNK_SIZE - 1) / (MULTIPART_CHUNK_SIZE as int)
}

/// Where part `part` starts; parts are numbered from 1.
pub open spec fn part_start_of(part: int) -> int {
    (part - 1) * MULTIPART_CHUNK_SIZE
}

/// Where part `part` of a file of `size` bytes ends.
pub open spec fn part_end_of(size: u64, part: int) -> int {
    if part * MULTIPART_CHUNK_SIZE <= size {
        part * MULTIPART_CHUNK_SIZE
    } else {
        size as int
    }
}

/// How many parts a file of `size` bytes has.
pub fn part_count(size: u64) -> (r: u64)
    ensures
        r == part_count_of(size),
{
    let whole: u64 = size / MULTIPART_CHUNK_SIZE;
    if size % MULTIPART_CHUNK_SIZE == 0 {
        whole
    } else {
        whole + 1
    }
}

/// Where part `part` of a file of `size` bytes starts, and how many bytes it
/// has.
pub fn part_range(size: u64, part: u64) -> (r: (u64, u64))
    requires
        1 <= part <= part_count_of(size),
    ensures
        r.0 == part_start_of(part as int),
        r.0 + r.1 == part_end_of(size, part as int),
        0 < r.1 <= MULTIPART_CHUNK_SIZE,
{
    let start: u64 = (part - 1) * MULTIPART_CHUNK_SIZE;
    let left: u64 = size - start;
    if left < MULTIPART_CHUNK_SIZE {
        (start, left)
    } else {
        (start, MULTIPART_CHUNK_SIZE)
    }
}

/// The parts of a file follow one another without gap or overlap, the first
/// starts where the file starts and the last ends where the file ends, and
/// none is empty or larger than a whole part.
pub proof fn law_parts_tile_the_file(size: u64, part: int)
    requires
        1 <= part <= part_count_of(size),
    ensures
        part_start_of(1) == 0,
        part < part_count_of(size) ==> part_end_of(size, part) == part_start_of(part + 1),
        part == part_count_of(size) ==> part_end_of(size, part) == size,
        0 < part_end_of(size, part) - part_start_of(part) <= MULTIPART_CHUNK_SIZE,
{
}

/// Every byte of a file lies in exactly one of its parts.
pub proof fn law_every_byte_has_one_part(size: u64, at: int) -> (part: int)
    requires
        0 <= at < size,
    ensures
        1 <= part <= part_count_of(size),
        part_start_of(part) <= at < part_end_of(size, part),
        forall|other: int|
            1 <= other <= part_count_of(size) && #[trigger] part_start_of(other) <= at
                < part_end_of(size, other) ==> other == part,
{
    at / (MULTIPART_CHUNK_SIZE as int) + 1
}

/// A file of more than 100 MiB goes in parts, and a part has 10 MiB. So many
/// parts are made that all of them hold the file and one fewer would not.
pub proof fn law_part_count(size: u64)
    ensures
        MULTIPART_THRESHOLD == 100 * 1024 * 1024,
        MULTIPART_CHUNK_SIZE == 10 * 1024 * 1024,
        size <= part_count_of(size) * (10 * 1024 * 1024),
        size > 0 ==> size > (part_count_of(size) - 1) * (10 * 1024 * 1024),
        size == 0 ==> part_count_of(size) == 0,
{
}

/// Each part starts 10 MiB after the one before it, and holds 10 MiB or what is
/// left of the file, whichever is less.
pub proof fn law_part_bounds(size: u64, part: int)
    requires
        1 <= part <= part_count_of(size),
    ensures
        part_start_of(part) == (part - 1) * (10 * 1024 * 1024),
        part_end_of(size, part) - part_start_of(part) <= 10 * 1024 * 1024,
        part_end_of(size, part) <= size,
        part_end_of(size, part) - part_start_of(part) == 10 * 1024 * 1024 || part_end_of(size, part)
            == size,
{
}

} // verus!

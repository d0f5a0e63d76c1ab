use vstd::prelude::*;

use crate::libs::constants::MEMORY_MAX;
use crate::libs::types::{MemomryTrait, Memory};

verus! {

/// The `i`-th big-endian word of an object image.
pub open spec fn image_word(image: Seq<u8>, i: int) -> u16 {
    (image[2 * i] as int * 256 + image[2 * i + 1] as int) as u16
}

/// How many program words an image places: those that follow the origin word,
/// up to the end of memory. A trailing odd byte belongs to no word.
pub open spec fn placed_words(image: Seq<u8>) -> int {
    let words = image.len() / 2 - 1;
    let room = MEMORY_MAX - image_word(image, 0) as int;
    if words < room {
        words
    } else {
        room
    }
}

/// Memory after the program words of `image` were placed from its origin up.
pub open spec fn loaded_memory(mem: Seq<u16>, image: Seq<u8>) -> Seq<u16> {
    let origin = image_word(image, 0) as int;
    Seq::new(
        mem.len(),
        |a: int|
            if origin <= a < origin + placed_words(image) {
                image_word(image, a - origin + 1)
            } else {
                mem[a]
            },
    )
}

/// Places an object image in memory. Its first big-endian word is the origin;
/// the words that follow go to the origin and the addresses above it, as many as
/// fit below the end of memory. Returns the origin, or `None`, with memory left
/// alone, when the image is too short to hold one.
pub fn load_image(memory: &mut Memory, image: &[u8]) -> (r: Option<u16>)
    ensures
        image@.len() < 2 ==> r is None && final(memory)@ == old(memory)@,
        image@.len() >= 2 ==> r == Some(image_word(image@, 0)) && final(memory)@ == loaded_memory(
            old(memory)@,
            image@,
        ),
{
    if image.len() < 2 {
        return None;
    }
    let origin: u16 = image[0] as u16 * 256 + image[1] as u16;
    let words: usize = image.len() / 2 - 1;
    let room: usize = MEMORY_MAX - origin as usize;
    let count: usize = if words < room {
        words
    } else {
        room
    };
    let mut i: usize = 0;
    while i < count
        invariant
            image@.len() >= 2,
            origin == image_word(image@, 0),
            words == image@.len() / 2 - 1,
            room == MEMORY_MAX - origin,
            count == placed_words(image@),
            i <= count,
            memory@.len() == MEMORY_MAX,
            memory@ == Seq::new(
                MEMORY_MAX as nat,
                |a: int|
                    if origin <= a < origin + i {
                        image_word(image@, a - origin + 1)
                    } else {
                        old(memory)@[a]
                    },
            ),
        decreases count - i,
    {
        let word: u16 = image[2 * i + 2] as u16 * 256 + image[2 * i + 3] as u16;
        memory.write((origin as usize + i) as u16, word);
        assert(memory@ =~= Seq::new(
            MEMORY_MAX as nat,
            |a: int|
                if origin <= a < origin + i + 1 {
                    image_word(image@, a - origin + 1)
                } else {
                    old(memory)@[a]
                },
        ));
        i = i + 1;
    }
    assert(memory@ =~= loaded_memory(old(memory)@, image@));
    Some(origin)
}

} // verus!

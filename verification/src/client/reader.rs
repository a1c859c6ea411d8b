//! Reading a connection: bytes come in batches, and each batch may hold several frames.

use vstd::prelude::*;
use crate::client::link::Link;
use crate::frames::{FrameReader, after_first, first_frame};

verus! {

/// What is read of a connection.
pub struct Reader {
    pub frames: FrameReader,
    /// How many frames of the present batch are done with.
    pub in_batch: u32,
}

/// What the loop that reads a connection does after a frame.
#[derive(Clone, Copy, Debug, PartialEq, Eq, Structural)]
pub enum AfterFrame {
    /// The connection is about to end, as expected: stop reading.
    Stop,
    /// Go on with the next frame, after letting other tasks run where that is due.
    GoOn { pause: bool },
}

/// Whether other tasks are let run after so many frames.
pub open spec fn pause_due(frames: u32, frequency: u32) -> bool {
    if frequency == 0 {
        frames == 0
    } else {
        frames % frequency == 0
    }
}

/// One more, as long as that can be counted.
pub open spec fn counted_on(n: u32) -> u32 {
    if n < u32::MAX {
        (n + 1) as u32
    } else {
        n
    }
}

impl Reader {
    pub fn new() -> (r: Reader)
        ensures
            r.frames@ == Seq::<u8>::empty(),
            r.in_batch == 0,
    {
        Reader { frames: FrameReader::new(), in_batch: 0 }
    }

    /// Takes in a batch of bytes that came at a given time, in milliseconds.
    pub fn begin_batch(&mut self, link: &mut Link, data: &Vec<u8>, now: i64)
        ensures
            final(self).frames@ == old(self).frames@ + data@,
            final(self).in_batch == 0,
            *final(link) == old(link).heard_at(now),
    {
        link.data_received(now);
        self.frames.feed(data);
        self.in_batch = 0;
    }

    /// The next frame, to be decrypted before the one after it.
    pub fn next_frame(&mut self) -> (r: Option<Vec<u8>>)
        ensures
            match r {
                Some(payload) => first_frame(old(self).frames@) == Some(payload@),
                None => first_frame(old(self).frames@) is None,
            },
            final(self).frames@ == after_first(old(self).frames@),
            final(self).in_batch == old(self).in_batch,
    {
        self.frames.next_frame()
    }

    /// Takes in that a frame is done with. A runtime says after how many frames other tasks are
    /// let run.
    pub fn frame_done(&mut self, link: &Link, frequency: u32) -> (r: AfterFrame)
        ensures
            final(self).frames == old(self).frames,
            r == (if link.expected_disconnect {
                AfterFrame::Stop
            } else {
                AfterFrame::GoOn { pause: pause_due(counted_on(old(self).in_batch), frequency) }
            }),
            final(self).in_batch == (if link.expected_disconnect {
                old(self).in_batch
            } else {
                counted_on(old(self).in_batch)
            }),
    {
        if link.expected_disconnect {
            return AfterFrame::Stop;
        }
        if self.in_batch < u32::MAX {
            self.in_batch = self.in_batch + 1;
        }
        let pause = if frequency == 0 {
            self.in_batch == 0
        } else {
            self.in_batch % frequency == 0
        };
        AfterFrame::GoOn { pause }
    }

    /// Takes in that every frame of a batch is done with. A batch of several frames may have
    /// taken long, so the time of the last data is brought up to date.
    pub fn end_batch(&mut self, link: &mut Link, now: i64)
        ensures
            *final(self) == *old(self),
            *final(link) == (if old(self).in_batch > 1 {
                old(link).heard_at(now)
            } else {
                *old(link)
            }),
    {
        if self.in_batch > 1 {
            link.data_received(now);
        }
    }
}

/// Whether the end of a transport is a failure.
pub fn transport_ended(link: &Link) -> (r: bool)
    ensures
        r == !link.expected_disconnect,
{
    !link.expected_disconnect
}

/// Other tasks run after every so many frames: over a whole turn of frames, exactly once. The
/// count of frames goes up by one with each, and stops at its end instead of starting over.
pub proof fn other_tasks_run_in_turn(frames: u32, turn: u32, past: u32)
    requires
        0 < turn,
        frames * turn + past <= u32::MAX,
        past < turn,
    ensures
        pause_due((frames * turn + past) as u32, turn) <==> past == 0,
        !pause_due(counted_on(past), 0),
        past < u32::MAX ==> counted_on(past) == past + 1,
        counted_on(u32::MAX) == u32::MAX,
{
    vstd::arithmetic::div_mod::lemma_fundamental_div_mod_converse_mod(
        frames * turn + past,
        turn as int,
        frames as int,
        past as int,
    );
}

} // verus!

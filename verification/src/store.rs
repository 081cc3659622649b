//! How the state file of a container is read and rewritten through a file
//! handle that stays open and is shared between processes.

use crate::state::State;
use vstd::prelude::*;

verus! {

/// What reading a container's state file gave.
pub enum ReadOutcome {
    /// The runtime directory, or the state file in it, does not exist.
    Missing,
    /// The file holds no state record.
    Unparsable,
    /// The record that the file holds.
    Record(State),
}

/// One operation on the open state file.
#[derive(Clone, Copy, Debug, PartialEq, Eq, Structural)]
pub enum FileStep {
    /// Move the cursor to the start of the file.
    Rewind,
    /// Cut the file to length zero. The cursor stays where it is.
    Truncate,
    /// Write the record at the cursor.
    Write,
    /// Read from the cursor to the end of the file.
    ReadToEnd,
}

/// An open file: its bytes and the position of the cursor.
pub struct OpenFile {
    pub bytes: Seq<u8>,
    pub cursor: nat,
}

impl OpenFile {
    /// The bytes from the cursor to the end of the file.
    pub open spec fn ahead(self) -> Seq<u8> {
        if self.cursor <= self.bytes.len() {
            self.bytes.skip(self.cursor as int)
        } else {
            Seq::empty()
        }
    }

    /// The file after `data` was written at the cursor: a gap between the
    /// end of the file and the cursor is filled with zeros, and bytes
    /// beyond the written ones stay.
    pub open spec fn written(self, data: Seq<u8>) -> OpenFile {
        let end = self.cursor + data.len();
        OpenFile {
            bytes: Seq::new(
                if end > self.bytes.len() {
                    end
                } else {
                    self.bytes.len()
                },
                |i: int|
                    if self.cursor <= i < end {
                        data[i - self.cursor]
                    } else if i < self.bytes.len() {
                        self.bytes[i]
                    } else {
                        0u8
                    },
            ),
            cursor: end,
        }
    }

    /// The file after one step; `data` is what a `Write` writes.
    pub open spec fn after(self, step: FileStep, data: Seq<u8>) -> OpenFile {
        match step {
            FileStep::Rewind => OpenFile { cursor: 0, ..self },
            FileStep::Truncate => OpenFile { bytes: Seq::empty(), ..self },
            FileStep::Write => self.written(data),
            FileStep::ReadToEnd => OpenFile {
                cursor: if self.cursor <= self.bytes.len() {
                    self.bytes.len()
                } else {
                    self.cursor
                },
                ..self
            },
        }
    }

    /// The file after the steps, in their order.
    pub open spec fn after_all(self, steps: Seq<FileStep>, data: Seq<u8>) -> OpenFile
        decreases steps.len(),
    {
        if steps.len() == 0 {
            self
        } else {
            self.after(steps[0], data).after_all(steps.drop_first(), data)
        }
    }

    /// What the last step of `steps` reads if it is a `ReadToEnd`.
    pub open spec fn read_by(self, steps: Seq<FileStep>) -> Seq<u8>
        recommends
            steps.len() > 0,
            steps.last() == FileStep::ReadToEnd,
    {
        self.after_all(steps.drop_last(), Seq::empty()).ahead()
    }
}

/// The steps that save a record: rewind, cut, write.
pub open spec fn save_sequence() -> Seq<FileStep> {
    seq![FileStep::Rewind, FileStep::Truncate, FileStep::Write]
}

/// The steps that read the record back: rewind, read to the end.
pub open spec fn reload_sequence() -> Seq<FileStep> {
    seq![FileStep::Rewind, FileStep::ReadToEnd]
}

/// The steps that save a record through the open state file.
pub fn save_steps() -> (steps: Vec<FileStep>)
    ensures
        steps@ == save_sequence(),
{
    let mut steps: Vec<FileStep> = Vec::new();
    steps.push(FileStep::Rewind);
    steps.push(FileStep::Truncate);
    steps.push(FileStep::Write);
    assert(steps@ =~= save_sequence());
    steps
}

/// The steps that read the record back through the open state file.
pub fn reload_steps() -> (steps: Vec<FileStep>)
    ensures
        steps@ == reload_sequence(),
{
    let mut steps: Vec<FileStep> = Vec::new();
    steps.push(FileStep::Rewind);
    steps.push(FileStep::ReadToEnd);
    assert(steps@ =~= reload_sequence());
    steps
}

/// Whatever the file held and wherever its cursor stood, after a save the
/// file holds the saved bytes and nothing else.
pub proof fn lemma_save_replaces_content(file: OpenFile, data: Seq<u8>)
    ensures
        file.after_all(save_sequence(), data).bytes == data,
{
    let steps = save_sequence();
    let one = file.after(FileStep::Rewind, data);
    let two = one.after(FileStep::Truncate, data);
    let three = two.after(FileStep::Write, data);
    assert(steps.drop_first() =~= seq![FileStep::Truncate, FileStep::Write]);
    assert(steps.drop_first().drop_first() =~= seq![FileStep::Write]);
    assert(steps.drop_first().drop_first().drop_first() =~= Seq::<FileStep>::empty());
    assert(file.after_all(steps, data) == three) by {
        reveal_with_fuel(OpenFile::after_all, 4);
    }
    assert(three.bytes =~= data);
}

/// A reload that follows a save reads exactly the saved bytes, whatever the
/// file held before the save.
pub proof fn lemma_reload_reads_what_was_saved(file: OpenFile, data: Seq<u8>)
    ensures
        file.after_all(save_sequence(), data).read_by(reload_sequence()) == data,
{
    lemma_save_replaces_content(file, data);
    let saved = file.after_all(save_sequence(), data);
    let steps = reload_sequence().drop_last();
    assert(steps =~= seq![FileStep::Rewind]);
    assert(steps.drop_first() =~= Seq::<FileStep>::empty());
    let rewound = saved.after(FileStep::Rewind, Seq::empty());
    assert(saved.after_all(steps, Seq::empty()) == rewound) by {
        reveal_with_fuel(OpenFile::after_all, 2);
    }
    assert(rewound.ahead() =~= data);
}

} // verus!

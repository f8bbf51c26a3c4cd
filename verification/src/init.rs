//! The initialization state machine for a per-CPU buffer map.
//!
//! Initialization opens one kernel ring buffer per active core and writes each
//! buffer's descriptor into the routing table, one 4-byte cell per core, in
//! enumeration order. The native steps - opening a buffer, writing a table
//! cell, advancing the table key - are performed by an unverified driver; an
//! [`InitSession`] decides which step comes next, what the step's inputs are,
//! and how each step's outcome changes the state, until initialization is
//! complete or a step has failed.

use vstd::prelude::*;

use crate::cell::descriptor_bytes;
use crate::cell::descriptor_cell;

verus! {

/// Why initialization failed.
#[derive(Clone, Copy, Debug, PartialEq, Eq, Structural)]
pub enum InitError {
    /// The routing table's key size or value size is not four bytes.
    SizeMismatch,
    /// The active cores could not be enumerated.
    Enumeration,
    /// Opening the ring buffer for the current core failed.
    Open,
    /// Writing a descriptor cell into the routing table failed.
    TableWrite,
    /// Advancing the routing table to its next key failed.
    KeyIteration,
}

/// Where an initialization session stands.
#[derive(Clone, Copy, Debug, PartialEq, Eq, Structural)]
pub enum Phase {
    /// Waiting for the ring buffer of the core at the cursor to be opened.
    OpenPending,
    /// Waiting for the newest descriptor's cell to be written into the table.
    WritePending,
    /// Waiting for the table key to advance to the next core's row.
    AdvancePending,
    /// Every core's buffer is open and every row is written.
    Complete,
    /// A step failed; the descriptors opened so far await release.
    Failed,
}

/// The native step the driver must perform next.
#[derive(Debug)]
pub enum InitAction {
    /// Open the per-core ring buffer for this core identifier.
    OpenBuffer { cpu: u32 },
    /// Write this 4-byte cell into the routing table at the current key.
    WriteCell { cell: Vec<u8> },
    /// Advance the routing table's key to the next core's row.
    AdvanceKey,
    /// Initialization succeeded; take the session apart with `finish`.
    Done,
    /// Initialization failed; release the opened buffers and stop.
    Abort,
}

/// The outcome the driver observed for the pending step.
#[derive(Clone, Copy, Debug, PartialEq, Eq, Structural)]
pub enum InitEvent {
    /// The buffer opened; its file descriptor follows.
    Opened { descriptor: u32 },
    /// The native open primitive returned no buffer.
    OpenFailed,
    /// The cell was written into the routing table.
    CellWritten,
    /// The routing table rejected the write.
    WriteFailed,
    /// The table key now names the next core's row.
    KeyAdvanced,
    /// The key-advance primitive reported a nonzero status.
    AdvanceFailed,
}

/// Which outcomes answer which pending step.
pub open spec fn event_fits(phase: Phase, ev: InitEvent) -> bool {
    match phase {
        Phase::OpenPending => (ev matches InitEvent::Opened { .. }) || ev == InitEvent::OpenFailed,
        Phase::WritePending => ev == InitEvent::CellWritten || ev == InitEvent::WriteFailed,
        Phase::AdvancePending => ev == InitEvent::KeyAdvanced || ev == InitEvent::AdvanceFailed,
        Phase::Complete => false,
        Phase::Failed => false,
    }
}

/// One initialization run over the enumerated cores.
///
/// The session holds the decisions of initialization and nothing native: the
/// core identifiers, the descriptors of the buffers opened so far (in core
/// order, index-aligned with the driver's own handle sequence), how many table
/// rows are written, and the pending step.
pub struct InitSession {
    /// The active core identifiers, in enumeration order.
    pub cpus: Vec<u32>,
    /// The index of the core the pending step belongs to.
    pub cursor: usize,
    /// The descriptors of the buffers opened so far, in core order.
    pub descriptors: Vec<u32>,
    /// How many descriptor cells have been written into the routing table.
    pub rows: usize,
    /// The pending step.
    pub phase: Phase,
}

impl InitSession {
    /// Well-formedness: the counts agree with the pending step.
    pub open spec fn inv(self) -> bool {
        match self.phase {
            Phase::OpenPending => self.cursor < self.cpus@.len()
                && self.descriptors@.len() == self.cursor
                && self.rows == self.cursor,
            Phase::WritePending => self.cursor < self.cpus@.len()
                && self.descriptors@.len() == self.cursor + 1
                && self.rows == self.cursor,
            Phase::AdvancePending => self.cursor + 1 < self.cpus@.len()
                && self.descriptors@.len() == self.cursor + 1
                && self.rows == self.cursor + 1,
            Phase::Complete => self.descriptors@.len() == self.cpus@.len()
                && self.rows == self.cpus@.len(),
            Phase::Failed => self.descriptors@.len() <= self.cpus@.len()
                && self.rows <= self.descriptors@.len(),
        }
    }

    /// Begin initialization.
    ///
    /// `key_size` and `leaf_size` come from the routing table; `cpus` is the
    /// core-enumeration collaborator's result, `None` when the enumeration
    /// source was unavailable. The table's cells must hold one 32-bit
    /// descriptor keyed by one 32-bit core identifier, so both sizes must be
    /// exactly four bytes; that is checked before anything is opened, and on
    /// a mismatch no buffer is ever opened and no row written.
    pub fn start(key_size: usize, leaf_size: usize, cpus: Option<Vec<u32>>) -> (r: Result<
        InitSession,
        InitError,
    >)
        ensures
            key_size != 4 || leaf_size != 4 ==> (r matches Err(e) && e == InitError::SizeMismatch),
            key_size == 4 && leaf_size == 4 && cpus is None ==> (r matches Err(e) && e
                == InitError::Enumeration),
            key_size == 4 && leaf_size == 4 && (cpus is Some) ==> (r matches Ok(s) && s.inv()
                && s.cpus@ == cpus->Some_0@ && s.descriptors@.len() == 0 && s.rows == 0 && s.cursor
                == 0 && (s.phase == (if cpus->Some_0@.len() == 0 {
                Phase::Complete
            } else {
                Phase::OpenPending
            }))),
    {
        if key_size != 4 || leaf_size != 4 {
            return Err(InitError::SizeMismatch);
        }
        match cpus {
            None => Err(InitError::Enumeration),
            Some(v) => {
                let phase = if v.len() == 0 {
                    Phase::Complete
                } else {
                    Phase::OpenPending
                };
                Ok(InitSession { cpus: v, cursor: 0, descriptors: Vec::new(), rows: 0, phase })
            },
        }
    }

    /// The native step the driver must perform next.
    ///
    /// While a write is pending, the cell handed out is exactly the newest
    /// descriptor - the one belonging to the core at the cursor - serialized
    /// into four bytes; so every row ever written holds its own core's
    /// descriptor.
    pub fn next_action(&self) -> (a: InitAction)
        requires
            self.inv(),
        ensures
            self.phase == Phase::OpenPending ==> (a matches InitAction::OpenBuffer { cpu } && cpu
                == self.cpus@[self.cursor as int]),
            self.phase == Phase::WritePending ==> (a matches InitAction::WriteCell { cell } && cell@
                == descriptor_bytes(self.descriptors@[self.cursor as int]) && cell@
                == descriptor_bytes(self.descriptors@.last())),
            self.phase == Phase::AdvancePending ==> a matches InitAction::AdvanceKey,
            self.phase == Phase::Complete ==> a matches InitAction::Done,
            self.phase == Phase::Failed ==> a matches InitAction::Abort,
    {
        match self.phase {
            Phase::OpenPending => InitAction::OpenBuffer { cpu: self.cpus[self.cursor] },
            Phase::WritePending => InitAction::WriteCell {
                cell: descriptor_cell(self.descriptors[self.descriptors.len() - 1]),
            },
            Phase::AdvancePending => InitAction::AdvanceKey,
            Phase::Complete => InitAction::Done,
            Phase::Failed => InitAction::Abort,
        }
    }

    /// Feed back the outcome of the pending step.
    ///
    /// Returns the error the driver must report when the step failed, `None`
    /// otherwise. A failure never discards a descriptor: whatever was opened
    /// before the failing step stays recorded, so the driver's teardown
    /// releases exactly the buffers that were opened. After the last core's
    /// cell is written the session is complete; the key is advanced only
    /// between cores, never after the last one.
    pub fn apply(&mut self, ev: InitEvent) -> (e: Option<InitError>)
        requires
            old(self).inv(),
            event_fits(old(self).phase, ev),
        ensures
            final(self).inv(),
            final(self).cpus@ == old(self).cpus@,
            old(self).descriptors@.is_prefix_of(final(self).descriptors@),
            match ev {
                InitEvent::Opened { descriptor } => final(self).descriptors@ == old(
                    self,
                ).descriptors@.push(descriptor) && final(self).phase == Phase::WritePending
                    && final(self).cursor == old(self).cursor && final(self).rows == old(self).rows
                    && e is None,
                InitEvent::OpenFailed => final(self).descriptors@ == old(self).descriptors@
                    && final(self).phase == Phase::Failed && final(self).cursor == old(self).cursor
                    && final(self).rows == old(self).rows && e == Some(InitError::Open),
                InitEvent::CellWritten => final(self).descriptors@ == old(self).descriptors@
                    && final(self).cursor == old(self).cursor && final(self).rows == old(self).rows
                    + 1 && e is None && (final(self).phase == (if old(self).cursor + 1 == old(
                    self,
                ).cpus@.len() {
                    Phase::Complete
                } else {
                    Phase::AdvancePending
                })),
                InitEvent::WriteFailed => final(self).descriptors@ == old(self).descriptors@
                    && final(self).phase == Phase::Failed && final(self).cursor == old(self).cursor
                    && final(self).rows == old(self).rows && e == Some(InitError::TableWrite),
                InitEvent::KeyAdvanced => final(self).descriptors@ == old(self).descriptors@
                    && final(self).phase == Phase::OpenPending && final(self).cursor == old(
                    self,
                ).cursor + 1 && final(self).rows == old(self).rows && e is None,
                InitEvent::AdvanceFailed => final(self).descriptors@ == old(self).descriptors@
                    && final(self).phase == Phase::Failed && final(self).cursor == old(self).cursor
                    && final(self).rows == old(self).rows && e == Some(InitError::KeyIteration),
            },
    {
        match ev {
            InitEvent::Opened { descriptor } => {
                self.descriptors.push(descriptor);
                self.phase = Phase::WritePending;
                proof {
                    assert(old(self).descriptors@.is_prefix_of(self.descriptors@)) by {
                        assert(self.descriptors@.subrange(0, old(self).descriptors@.len() as int)
                            =~= old(self).descriptors@);
                    }
                }
                None
            },
            InitEvent::OpenFailed => {
                self.phase = Phase::Failed;
                Some(InitError::Open)
            },
            InitEvent::CellWritten => {
                let n = self.cpus.len();
                self.rows = self.rows + 1;
                if self.cursor + 1 == n {
                    self.phase = Phase::Complete;
                } else {
                    self.phase = Phase::AdvancePending;
                }
                None
            },
            InitEvent::WriteFailed => {
                self.phase = Phase::Failed;
                Some(InitError::TableWrite)
            },
            InitEvent::KeyAdvanced => {
                self.cursor = self.cursor + 1;
                self.phase = Phase::OpenPending;
                None
            },
            InitEvent::AdvanceFailed => {
                self.phase = Phase::Failed;
                Some(InitError::KeyIteration)
            },
        }
    }

    /// Take a completed session apart into the buffer-map model.
    pub fn finish(self) -> (m: BufferMap)
        requires
            self.inv(),
            self.phase == Phase::Complete,
        ensures
            m.descriptors@ == self.descriptors@,
            m.descriptors@.len() == self.cpus@.len(),
    {
        BufferMap { descriptors: self.descriptors }
    }
}

/// The verified model of an initialized buffer map: one open ring-buffer
/// descriptor per active core, in enumeration order. The native handles
/// themselves are owned by the unverified driver, index-aligned with this
/// sequence.
pub struct BufferMap {
    /// The open buffers' file descriptors, one per core, in enumeration order.
    pub descriptors: Vec<u32>,
}

impl BufferMap {
    /// How many per-core buffers the map covers: the count the driver hands
    /// to the native poll primitive together with its handle array.
    pub fn buffer_count(&self) -> (n: usize)
        ensures
            n == self.descriptors@.len(),
    {
        self.descriptors.len()
    }
}

/// A completed initialization opened exactly one buffer per enumerated core
/// and wrote exactly one routing-table row per core.
pub proof fn lemma_complete_counts(s: InitSession)
    requires
        s.inv(),
        s.phase == Phase::Complete,
    ensures
        s.descriptors@.len() == s.cpus@.len(),
        s.rows == s.cpus@.len(),
{
}

/// While the open of the core at the cursor is pending - the one step that
/// can fail with an open error - exactly the earlier cores' buffers are open.
/// A failure there therefore leaves cursor-many descriptors recorded, none
/// forgotten, and the driver's teardown of its handle sequence releases each
/// of them exactly once.
pub proof fn lemma_open_failure_scope(s: InitSession)
    requires
        s.inv(),
        s.phase == Phase::OpenPending,
    ensures
        s.descriptors@.len() == s.cursor,
        s.cursor < s.cpus@.len(),
{
}

} // verus!

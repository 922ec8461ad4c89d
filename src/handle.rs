//! A file writer whose open/closed phase is a type parameter.
//!
//! `FileWriter<Closed>` can only be opened; `FileWriter<Open>` can be written
//! to and closed. Opening and closing consume the handle and return one with
//! the other marker. The writer drives a `Medium`, a simulated storage device
//! that keeps the bytes written and a journal of every effect performed on it,
//! so that what each call really did can be stated and checked.

use core::marker::PhantomData;
use vstd::prelude::*;
use vstd::string::{StrSliceExecFns, StringSliceAdditionalSpecFns};

verus! {

/// Marker: the file is closed.
pub struct Closed;

/// Marker: the file is open for writing.
pub struct Open;

/// The lifecycle phase that a marker type stands for.
pub trait Phase {
    /// Whether a handle tagged with this marker has its file open.
    spec fn is_open_phase() -> bool;
}

impl Phase for Closed {
    open spec fn is_open_phase() -> bool {
        false
    }
}

impl Phase for Open {
    open spec fn is_open_phase() -> bool {
        true
    }
}

/// One side effect performed on a medium.
#[derive(Clone, Copy, Debug, PartialEq, Eq, Structural)]
pub enum Effect {
    Opened,
    Wrote,
    Closed,
}

/// Why the real action behind an operation failed.
#[derive(Clone, Copy, Debug, PartialEq, Eq, Structural)]
pub enum ResourceError {
    /// No device is attached.
    DeviceMissing,
    /// The device refuses to be opened for writing.
    ReadOnly,
    /// The data does not fit in what is left of the device.
    NoSpace,
}

/// A simulated storage device: whether it is there and writable, how many
/// bytes it can hold, what it holds, whether a file on it is open, and the
/// effects performed on it so far.
pub struct Medium {
    attached: bool,
    writable: bool,
    capacity: usize,
    contents: Vec<u8>,
    journal: Vec<Effect>,
    is_open: bool,
}

pub struct MediumView {
    pub attached: bool,
    pub writable: bool,
    pub capacity: nat,
    pub contents: Seq<u8>,
    pub journal: Seq<Effect>,
    pub is_open: bool,
}

impl View for Medium {
    type V = MediumView;

    closed spec fn view(&self) -> MediumView {
        MediumView {
            attached: self.attached,
            writable: self.writable,
            capacity: self.capacity as nat,
            contents: self.contents@,
            journal: self.journal@,
            is_open: self.is_open,
        }
    }
}

/// An attached, writable, empty medium with nothing done to it yet.
pub open spec fn fresh_medium(attached: bool, writable: bool, capacity: nat) -> MediumView {
    MediumView {
        attached,
        writable,
        capacity,
        contents: Seq::empty(),
        journal: Seq::empty(),
        is_open: false,
    }
}

impl Medium {
    /// An empty, writable device that holds up to `capacity` bytes.
    pub fn new(capacity: usize) -> (r: Medium)
        ensures
            r@ == fresh_medium(true, true, capacity as nat),
    {
        Medium {
            attached: true,
            writable: true,
            capacity,
            contents: Vec::new(),
            journal: Vec::new(),
            is_open: false,
        }
    }

    /// An attached device that cannot be opened for writing.
    pub fn read_only() -> (r: Medium)
        ensures
            r@ == fresh_medium(true, false, 0),
    {
        Medium {
            attached: true,
            writable: false,
            capacity: 0,
            contents: Vec::new(),
            journal: Vec::new(),
            is_open: false,
        }
    }

    /// A device that is not there.
    pub fn missing() -> (r: Medium)
        ensures
            r@ == fresh_medium(false, false, 0),
    {
        Medium {
            attached: false,
            writable: false,
            capacity: 0,
            contents: Vec::new(),
            journal: Vec::new(),
            is_open: false,
        }
    }

    pub fn contents(&self) -> (r: &Vec<u8>)
        ensures
            r@ == self@.contents,
    {
        &self.contents
    }

    pub fn journal(&self) -> (r: &Vec<Effect>)
        ensures
            r@ == self@.journal,
    {
        &self.journal
    }

    pub fn is_open(&self) -> (r: bool)
        ensures
            r == self@.is_open,
    {
        self.is_open
    }
}

/// How many times `e` occurs in the journal `j`.
pub open spec fn count_effect(j: Seq<Effect>, e: Effect) -> nat
    decreases j.len(),
{
    if j.len() == 0 {
        0
    } else {
        count_effect(j.drop_last(), e) + if j.last() == e {
            1nat
        } else {
            0nat
        }
    }
}

/// The error that opening a file on `m` meets, if any.
pub open spec fn open_error(m: MediumView) -> Option<ResourceError> {
    if !m.attached {
        Some(ResourceError::DeviceMissing)
    } else if !m.writable {
        Some(ResourceError::ReadOnly)
    } else {
        None
    }
}

/// `m` after a successful open.
pub open spec fn opened(m: MediumView) -> MediumView {
    MediumView { is_open: true, journal: m.journal.push(Effect::Opened), ..m }
}

/// Whether `bytes` fit in what is left of `m`.
pub open spec fn fits(m: MediumView, bytes: Seq<u8>) -> bool {
    m.contents.len() + bytes.len() <= m.capacity
}

/// `m` after `bytes` were written to it.
pub open spec fn written(m: MediumView, bytes: Seq<u8>) -> MediumView {
    MediumView { contents: m.contents + bytes, journal: m.journal.push(Effect::Wrote), ..m }
}

/// `m` after a close.
pub open spec fn closed(m: MediumView) -> MediumView {
    MediumView { is_open: false, journal: m.journal.push(Effect::Closed), ..m }
}

/// Appending `x` to a journal adds one occurrence of `e` exactly when `x` is `e`.
pub proof fn lemma_count_effect_push(j: Seq<Effect>, x: Effect, e: Effect)
    ensures
        count_effect(j.push(x), e) == count_effect(j, e) + if x == e {
            1nat
        } else {
            0nat
        },
{
    assert(j.push(x).drop_last() =~= j);
}

/// The phase of the device follows the marker through every legal
/// transition: a fresh device starts closed, a successful open leaves it
/// open, writes that fit keep it open, and a close leaves it closed. So every
/// handle reached from a fresh one by any sequence of transitions is in the
/// phase its marker names.
pub proof fn lemma_phase_follows_transitions(m: MediumView, bytes: Seq<u8>)
    ensures
        medium_in_phase(fresh_medium(m.attached, m.writable, m.capacity), false),
        medium_in_phase(m, false) && open_error(m) is None ==> medium_in_phase(opened(m), true),
        medium_in_phase(m, true) && fits(m, bytes) ==> medium_in_phase(written(m, bytes), true),
        medium_in_phase(m, true) ==> medium_in_phase(closed(m), false),
{
}

/// Closing an open file and opening it again cannot fail: the device is open
/// again, in the phase of a freshly opened handle, and the only change is one
/// close and then one open at the end of its journal. (Open and close keep
/// the path by their own contracts.)
pub proof fn lemma_close_then_open(m: MediumView)
    requires
        medium_in_phase(m, true),
    ensures
        open_error(closed(m)) is None,
        medium_in_phase(opened(closed(m)), true),
        opened(closed(m)) == (MediumView {
            journal: m.journal.push(Effect::Closed).push(Effect::Opened),
            ..m
        }),
{
}

/// Each close performs exactly one close effect and nothing else on the
/// journal; after it the device is no longer in the open phase, so no open
/// handle is left on it to be closed a second time. Closing, reopening and
/// closing again performs exactly two closes and one open.
pub proof fn lemma_one_close_effect_per_close(m: MediumView)
    requires
        medium_in_phase(m, true),
    ensures
        count_effect(closed(m).journal, Effect::Closed) == count_effect(m.journal, Effect::Closed)
            + 1,
        count_effect(closed(m).journal, Effect::Opened) == count_effect(m.journal, Effect::Opened),
        count_effect(closed(m).journal, Effect::Wrote) == count_effect(m.journal, Effect::Wrote),
        medium_in_phase(closed(m), false),
        !medium_in_phase(closed(m), true),
        count_effect(closed(opened(closed(m))).journal, Effect::Closed) == count_effect(
            m.journal,
            Effect::Closed,
        ) + 2,
        count_effect(closed(opened(closed(m))).journal, Effect::Opened) == count_effect(
            m.journal,
            Effect::Opened,
        ) + 1,
{
    let j1 = m.journal.push(Effect::Closed);
    let j2 = j1.push(Effect::Opened);
    lemma_count_effect_push(m.journal, Effect::Closed, Effect::Closed);
    lemma_count_effect_push(m.journal, Effect::Closed, Effect::Opened);
    lemma_count_effect_push(m.journal, Effect::Closed, Effect::Wrote);
    lemma_count_effect_push(j1, Effect::Opened, Effect::Closed);
    lemma_count_effect_push(j1, Effect::Opened, Effect::Opened);
    lemma_count_effect_push(j2, Effect::Closed, Effect::Closed);
    lemma_count_effect_push(j2, Effect::Closed, Effect::Opened);
}

/// A handle on the file at `filepath` on `medium`, tagged with its phase `S`.
pub struct FileWriter<S> {
    filepath: String,
    medium: Medium,
    _state: PhantomData<S>,
}

pub struct FileWriterView {
    pub path: Seq<char>,
    pub medium: MediumView,
}

impl<S> View for FileWriter<S> {
    type V = FileWriterView;

    closed spec fn view(&self) -> FileWriterView {
        FileWriterView { path: self.filepath@, medium: self.medium@ }
    }
}

/// What holds of a medium driven by a handle in the phase `open`: the medium
/// is in that same phase, an open file sits on a device that let it be
/// opened, and the contents fit.
pub open spec fn medium_in_phase(m: MediumView, open: bool) -> bool {
    &&& m.is_open == open
    &&& open ==> open_error(m) is None
    &&& m.contents.len() <= m.capacity
}

impl<S: Phase> FileWriter<S> {
    /// The marker agrees with the phase that the resource is really in.
    pub open spec fn wf(&self) -> bool {
        medium_in_phase(self@.medium, S::is_open_phase())
    }

    pub fn filepath(&self) -> (r: &str)
        ensures
            r@ == self@.path,
    {
        self.filepath.as_str()
    }

    pub fn medium(&self) -> (r: &Medium)
        ensures
            r@ == self@.medium,
    {
        &self.medium
    }
}

impl FileWriter<Closed> {
    /// A handle on a closed file on a writable device with no size limit
    /// but the address space. Nothing is done to the device yet.
    pub fn new(filepath: String) -> (r: FileWriter<Closed>)
        ensures
            r.wf(),
            r@.path == filepath@,
            r@.medium == fresh_medium(true, true, usize::MAX as nat),
    {
        FileWriter { filepath, medium: Medium::new(usize::MAX), _state: PhantomData }
    }

    /// A handle on a closed file on `medium`.
    pub fn on(filepath: String, medium: Medium) -> (r: FileWriter<Closed>)
        requires
            medium_in_phase(medium@, false),
        ensures
            r.wf(),
            r@ == (FileWriterView { path: filepath@, medium: medium@ }),
    {
        FileWriter { filepath, medium, _state: PhantomData }
    }

    /// Opens the file. On failure nothing is done to the device, and the
    /// closed handle comes back with the error.
    pub fn open(self) -> (r: Result<FileWriter<Open>, (FileWriter<Closed>, ResourceError)>)
        requires
            self.wf(),
        ensures
            match r {
                Ok(h) => {
                    &&& open_error(self@.medium) is None
                    &&& h.wf()
                    &&& h@ == (FileWriterView { path: self@.path, medium: opened(self@.medium) })
                },
                Err((h, e)) => {
                    &&& open_error(self@.medium) == Some(e)
                    &&& h.wf()
                    &&& h@ == self@
                },
            },
    {
        if !self.medium.attached {
            return Err((self, ResourceError::DeviceMissing));
        }
        if !self.medium.writable {
            return Err((self, ResourceError::ReadOnly));
        }
        let FileWriter { filepath, mut medium, _state } = self;
        medium.is_open = true;
        medium.journal.push(Effect::Opened);
        Ok(FileWriter { filepath, medium, _state: PhantomData })
    }

    /// Gives the device back; its file is closed.
    pub fn into_medium(self) -> (r: Medium)
        requires
            self.wf(),
        ensures
            r@ == self@.medium,
            medium_in_phase(r@, false),
    {
        self.medium
    }
}

impl FileWriter<Open> {
    /// Writes the UTF-8 bytes of `data` after what the file holds. When they
    /// do not fit, nothing is written and the handle is unchanged.
    pub fn write(&mut self, data: &str) -> (r: Result<(), ResourceError>)
        requires
            old(self).wf(),
        ensures
            final(self).wf(),
            final(self)@.path == old(self)@.path,
            match r {
                Ok(()) => {
                    &&& fits(old(self)@.medium, data.spec_bytes())
                    &&& final(self)@.medium == written(old(self)@.medium, data.spec_bytes())
                },
                Err(e) => {
                    &&& !fits(old(self)@.medium, data.spec_bytes())
                    &&& e == ResourceError::NoSpace
                    &&& final(self)@ == old(self)@
                },
            },
    {
        let mut bytes = data.as_bytes_vec();
        if bytes.len() > self.medium.capacity - self.medium.contents.len() {
            return Err(ResourceError::NoSpace);
        }
        self.medium.contents.append(&mut bytes);
        self.medium.journal.push(Effect::Wrote);
        Ok(())
    }

    /// Closes the file.
    pub fn close(self) -> (r: FileWriter<Closed>)
        requires
            self.wf(),
        ensures
            r.wf(),
            r@ == (FileWriterView { path: self@.path, medium: closed(self@.medium) }),
    {
        let FileWriter { filepath, mut medium, _state } = self;
        medium.is_open = false;
        medium.journal.push(Effect::Closed);
        FileWriter { filepath, medium, _state: PhantomData }
    }
}

} // verus!

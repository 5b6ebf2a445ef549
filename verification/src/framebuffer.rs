//! The buffer handle that the frame loop holds.
use crate::error::InitError;
use std::marker::PhantomData;
use std::ops::Deref;
use std::ops::DerefMut;
use std::rc::Rc;
use vstd::prelude::*;

verus! {

/// Owns exactly one backend buffer and gives access to it.
///
/// The marker field keeps the handle on the thread that made it: the type is
/// neither `Send` nor `Sync`, and it cannot be cloned.
pub struct FrameBuffer<T>(T, PhantomData<Rc<()>>);

impl<T> View for FrameBuffer<T> {
    type V = T;

    /// The wrapped buffer.
    closed spec fn view(&self) -> T {
        self.0
    }
}

impl<T> Deref for FrameBuffer<T> {
    type Target = T;

    /// Shared access to the wrapped buffer.
    fn deref(&self) -> (buffer: &T)
        ensures
            *buffer == self@,
    {
        &self.0
    }
}

impl<T> DerefMut for FrameBuffer<T> {
    /// Exclusive access to the wrapped buffer: what the caller leaves behind
    /// the reference is what the handle holds afterwards.
    fn deref_mut(&mut self) -> (buffer: &mut T)
        ensures
            *buffer == old(self)@,
            final(self)@ == *final(buffer),
    {
        &mut self.0
    }
}

impl<T> FrameBuffer<T> {
    /// Wraps `buffer`.
    pub fn new(buffer: T) -> (frame: Self)
        ensures
            frame@ == buffer,
    {
        FrameBuffer(buffer, PhantomData)
    }
}

/// What a buffer backend brings to the integration: its configuration, what
/// it needs the host to resolve before startup, and the startup procedure
/// itself. `H` is the kind of platform handle that the backend is built on.
pub trait FrameBufferType<H>: Sized {
    /// Configuration of the backend.
    type Config;

    /// What the host has to resolve for `startup`.
    type StartupParams;

    /// What `startup` asks the backend to build.
    type Plan;

    /// Whether `outcome` is what startup decides of `params` and `config`.
    spec fn decides(
        params: Self::StartupParams,
        config: Self::Config,
        outcome: Result<Self::Plan, InitError>,
    ) -> bool;

    /// Decides startup: the plan to build the buffer by, or the reason for
    /// which there will be none.
    fn startup(params: Self::StartupParams, config: Self::Config) -> (outcome: Result<
        Self::Plan,
        InitError,
    >)
        ensures
            Self::decides(params, config, outcome),
    ;
}

} // verus!

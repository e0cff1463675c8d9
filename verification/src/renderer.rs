//! A bounded pool of render targets that are leased one at a time.

use vstd::prelude::*;

verus! {

/// The largest width and the largest height of a render target.
pub const MAX_DIMENSION: u32 = 8_192;

/// The number of targets in a pool.
pub const TARGET_POOL_SIZE: usize = 2;

/// `std::io::Error`: an input or output failure, carried through and never looked into.
#[verifier::external_type_specification]
#[verifier::external_body]
pub struct ExIoError(std::io::Error);

/// Classified GLES/GBM initialization and allocation failure.
#[derive(Debug)]
pub enum RendererError {
    InvalidConfiguration,
    OpenDevice(std::io::Error),
    Initialize(&'static str),
    Allocate,
    Busy,
}

/// Whether a render target can have these dimensions.
pub open spec fn dimensions_bounded(width: u32, height: u32) -> bool {
    1 <= width <= MAX_DIMENSION && 1 <= height <= MAX_DIMENSION
}

/// Checks the dimensions of a render target.
pub fn validate_dimensions(width: u32, height: u32) -> (checked: Result<(), RendererError>)
    ensures
        match checked {
            Ok(()) => dimensions_bounded(width, height),
            Err(error) => !dimensions_bounded(width, height) && error is InvalidConfiguration,
        },
{
    if width == 0 || height == 0 || width > MAX_DIMENSION || height > MAX_DIMENSION {
        Err(RendererError::InvalidConfiguration)
    } else {
        Ok(())
    }
}

/// One target: the buffer that backs it, what it is exported as, and whether it is leased.
pub struct RenderTarget<B, D> {
    pub buffer_object: B,
    pub dmabuf: D,
    pub leased: bool,
}

/// A renderer and a pool of targets in one size. Each target keeps its buffer for as long as its
/// export can be reached.
pub struct GlesGbmTarget<R, A, B, D, N> {
    renderer: R,
    allocator: A,
    targets: Vec<RenderTarget<B, D>>,
    render_node: N,
    width: u32,
    height: u32,
}

/// What a [`GlesGbmTarget`] holds.
pub struct TargetView<R, A, B, D, N> {
    pub renderer: R,
    pub allocator: A,
    pub targets: Seq<RenderTarget<B, D>>,
    pub render_node: N,
    pub width: u32,
    pub height: u32,
}

impl<R, A, B, D, N> View for GlesGbmTarget<R, A, B, D, N> {
    type V = TargetView<R, A, B, D, N>;

    closed spec fn view(&self) -> TargetView<R, A, B, D, N> {
        TargetView {
            renderer: self.renderer,
            allocator: self.allocator,
            targets: self.targets@,
            render_node: self.render_node,
            width: self.width,
            height: self.height,
        }
    }
}

impl<B, D> RenderTarget<B, D> {
    /// The same target, leased or free.
    pub open spec fn with_lease(self, leased: bool) -> Self {
        RenderTarget { leased, ..self }
    }

    /// The same target with another export.
    pub open spec fn with_dmabuf(self, dmabuf: D) -> Self {
        RenderTarget { dmabuf, ..self }
    }
}

impl<R, A, B, D, N> TargetView<R, A, B, D, N> {
    /// The invariant of a pool: whole, and in a bounded size.
    pub open spec fn wf(self) -> bool {
        &&& self.targets.len() == TARGET_POOL_SIZE
        &&& dimensions_bounded(self.width, self.height)
    }

    /// Whether target `index` exists and is leased.
    pub open spec fn leased(self, index: int) -> bool {
        0 <= index < self.targets.len() && self.targets[index].leased
    }

    /// Whether target `index` is the first free one.
    pub open spec fn first_free(self, index: int) -> bool {
        &&& 0 <= index < self.targets.len()
        &&& !self.targets[index].leased
        &&& forall|i: int| 0 <= i < index ==> (#[trigger] self.targets[i]).leased
    }

    /// Whether no target is free.
    pub open spec fn exhausted(self) -> bool {
        forall|i: int| 0 <= i < self.targets.len() ==> (#[trigger] self.targets[i]).leased
    }

    /// Whether some target is leased.
    pub open spec fn busy(self) -> bool {
        exists|i: int| 0 <= i < self.targets.len() && (#[trigger] self.targets[i]).leased
    }

    /// The pool with target `index` leased or free.
    pub open spec fn with_lease(self, index: int, leased: bool) -> Self {
        TargetView {
            targets: self.targets.update(index, self.targets[index].with_lease(leased)),
            ..self
        }
    }
}

impl<R, A, B, D, N> GlesGbmTarget<R, A, B, D, N> {
    /// Whether the pool is whole, and in a bounded size.
    pub open spec fn wf(&self) -> bool {
        self@.wf()
    }

    /// Leases one free target, the first of them, without waiting.
    #[must_use]
    pub fn acquire_target(&mut self) -> (acquired: Option<usize>)
        requires
            old(self).wf(),
        ensures
            final(self).wf(),
            match acquired {
                Some(index) => {
                    &&& old(self)@.first_free(index as int)
                    &&& final(self)@ == old(self)@.with_lease(index as int, true)
                },
                None => old(self)@.exhausted() && final(self)@ == old(self)@,
            },
    {
        let mut index: usize = 0;
        while index < self.targets.len()
            invariant
                index <= self.targets@.len(),
                *self == *old(self),
                old(self).wf(),
                forall|i: int| 0 <= i < index ==> (#[trigger] self@.targets[i]).leased,
            decreases self.targets@.len() - index,
        {
            if !self.targets[index].leased {
                self.targets[index].leased = true;
                assert(self@.targets =~= old(self)@.with_lease(index as int, true).targets);
                return Some(index);
            }
            index = index + 1;
        }
        None
    }

    /// Gives the renderer and the export of one leased target for a render pass.
    pub fn render_parts(&mut self, index: usize) -> (parts: Option<(&mut R, &mut D)>)
        ensures
            match parts {
                Some((renderer, dmabuf)) => {
                    &&& old(self)@.leased(index as int)
                    &&& *renderer == old(self)@.renderer
                    &&& *dmabuf == old(self)@.targets[index as int].dmabuf
                    &&& final(self)@ == TargetView {
                        renderer: *final(renderer),
                        targets: old(self)@.targets.update(
                            index as int,
                            old(self)@.targets[index as int].with_dmabuf(*final(dmabuf)),
                        ),
                        ..old(self)@
                    }
                },
                None => !old(self)@.leased(index as int) && final(self)@ == old(self)@,
            },
    {
        if index < self.targets.len() && self.targets[index].leased {
            Some((&mut self.renderer, &mut self.targets[index].dmabuf))
        } else {
            None
        }
    }

    /// Gives the export of one leased target; its buffer stays here.
    #[must_use]
    pub fn dmabuf(&self, index: usize) -> (dmabuf: Option<&D>)
        ensures
            match dmabuf {
                Some(dmabuf) => {
                    &&& self@.leased(index as int)
                    &&& *dmabuf == self@.targets[index as int].dmabuf
                },
                None => !self@.leased(index as int),
            },
    {
        if index < self.targets.len() && self.targets[index].leased {
            Some(&self.targets[index].dmabuf)
        } else {
            None
        }
    }

    /// Releases one target and says whether it was leased.
    pub fn release_target(&mut self, index: usize) -> (was_leased: bool)
        requires
            old(self).wf(),
        ensures
            final(self).wf(),
            was_leased == old(self)@.leased(index as int),
            final(self)@ == if was_leased {
                old(self)@.with_lease(index as int, false)
            } else {
                old(self)@
            },
    {
        if index >= self.targets.len() {
            return false;
        }
        let was_leased: bool = self.targets[index].leased;
        self.targets[index].leased = false;
        proof {
            if was_leased {
                assert(self@.targets =~= old(self)@.with_lease(index as int, false).targets);
            } else {
                assert(self@.targets =~= old(self)@.targets);
            }
        }
        was_leased
    }

    /// The number of targets.
    #[must_use]
    pub fn pool_size(&self) -> (size: usize)
        requires
            self.wf(),
        ensures
            size == self@.targets.len(),
            size == TARGET_POOL_SIZE,
    {
        self.targets.len()
    }

    /// The device node that the targets belong to.
    #[must_use]
    pub fn render_node(&self) -> (node: N) where N: Copy
        ensures
            node == self@.render_node,
    {
        self.render_node
    }

    /// What the buffers of the targets are allocated from.
    #[must_use]
    pub fn allocator(&self) -> (allocator: &A)
        ensures
            *allocator == self@.allocator,
    {
        &self.allocator
    }

    /// The renderer of the targets.
    pub fn renderer(&mut self) -> (renderer: &mut R)
        ensures
            *renderer == old(self)@.renderer,
            final(self)@ == (TargetView { renderer: *final(renderer), ..old(self)@ }),
    {
        &mut self.renderer
    }

    /// Takes whether the renderer could be bound to a Wayland display, and reports that it could
    /// not.
    pub fn bind_wayland_display(&self, bound: bool) -> (checked: Result<(), RendererError>)
        ensures
            match checked {
                Ok(()) => bound,
                Err(error) => !bound && error == RendererError::Initialize("Wayland EGL binding"),
            },
    {
        if bound {
            Ok(())
        } else {
            Err(RendererError::Initialize("Wayland EGL binding"))
        }
    }

    /// The dimensions of every target.
    #[must_use]
    pub fn dimensions(&self) -> (dimensions: (u32, u32))
        ensures
            dimensions == (self@.width, self@.height),
    {
        (self.width, self.height)
    }
}

/// One native step of the opening of a renderer.
#[derive(Clone, Copy, Debug, PartialEq, Eq, Structural)]
pub enum RendererStep {
    /// Open the render node for reading and writing.
    OpenDevice,
    /// Duplicate the opened device for the allocator.
    CloneDevice,
    GbmAllocator,
    GbmDevice,
    EglDisplay,
    EglContext,
    GlesRenderer,
    DrmNode,
}

/// How a step went.
#[derive(Debug)]
pub enum RendererReply {
    /// The step succeeded.
    Done,
    /// The device could not be opened.
    DeviceFailed(std::io::Error),
    /// The step failed for a reason that is not reported.
    Failed,
}

impl RendererStep {
    /// Whether the step opens the device, so that its failure has a cause.
    pub open spec fn opens_device(self) -> bool {
        self is OpenDevice || self is CloneDevice
    }

    /// The name that the failure of this step carries.
    pub open spec fn title(self) -> &'static str {
        match self {
            RendererStep::OpenDevice => "",
            RendererStep::CloneDevice => "",
            RendererStep::GbmAllocator => "GBM allocator",
            RendererStep::GbmDevice => "GBM device",
            RendererStep::EglDisplay => "EGL display",
            RendererStep::EglContext => "EGL context",
            RendererStep::GlesRenderer => "GLES renderer",
            RendererStep::DrmNode => "DRM node",
        }
    }

    fn name(self) -> (name: &'static str)
        ensures
            name == self.title(),
    {
        match self {
            RendererStep::OpenDevice => "",
            RendererStep::CloneDevice => "",
            RendererStep::GbmAllocator => "GBM allocator",
            RendererStep::GbmDevice => "GBM device",
            RendererStep::EglDisplay => "EGL display",
            RendererStep::EglContext => "EGL context",
            RendererStep::GlesRenderer => "GLES renderer",
            RendererStep::DrmNode => "DRM node",
        }
    }
}

impl RendererReply {
    /// Whether this reply has the form that `step` is answered in.
    pub open spec fn answers(&self, step: RendererStep) -> bool {
        match *self {
            RendererReply::Done => true,
            RendererReply::DeviceFailed(_) => step.opens_device(),
            RendererReply::Failed => !step.opens_device(),
        }
    }

    /// The failure that this reply to `step` reports.
    pub open spec fn rejection(&self, step: RendererStep) -> RendererError {
        match *self {
            RendererReply::DeviceFailed(cause) => RendererError::OpenDevice(cause),
            _ => RendererError::Initialize(step.title()),
        }
    }

    /// Whether this reply has the form that `step` is answered in.
    pub fn fits(&self, step: RendererStep) -> (fits: bool)
        ensures
            fits == self.answers(step),
    {
        let opens_device: bool = matches!(
            step,
            RendererStep::OpenDevice | RendererStep::CloneDevice
        );
        match self {
            RendererReply::Done => true,
            RendererReply::DeviceFailed(_) => opens_device,
            RendererReply::Failed => !opens_device,
        }
    }
}

/// The opening of a renderer: how many steps have succeeded, and the size of its first targets.
#[derive(Debug)]
pub struct RendererOpening {
    done: usize,
    width: u32,
    height: u32,
}

/// What a [`RendererOpening`] stands for.
pub struct RendererOpeningView {
    pub done: nat,
    pub width: u32,
    pub height: u32,
}

impl View for RendererOpening {
    type V = RendererOpeningView;

    closed spec fn view(&self) -> RendererOpeningView {
        RendererOpeningView { done: self.done as nat, width: self.width, height: self.height }
    }
}

impl RendererOpeningView {
    /// The steps that open a renderer, in order.
    pub open spec fn steps() -> Seq<RendererStep> {
        seq![
            RendererStep::OpenDevice,
            RendererStep::CloneDevice,
            RendererStep::GbmAllocator,
            RendererStep::GbmDevice,
            RendererStep::EglDisplay,
            RendererStep::EglContext,
            RendererStep::GlesRenderer,
            RendererStep::DrmNode,
        ]
    }

    /// The invariant of an opening: bounded targets, and no more steps than there are.
    pub open spec fn wf(self) -> bool {
        &&& dimensions_bounded(self.width, self.height)
        &&& self.done <= Self::steps().len()
    }

    /// Whether every step has succeeded.
    pub open spec fn complete(self) -> bool {
        self.done == Self::steps().len()
    }

    /// The step to take next.
    pub open spec fn pending(self) -> RendererStep {
        Self::steps()[self.done as int]
    }

    /// The state after a reply to the pending step: one step further, or the failure.
    pub open spec fn step(self, reply: RendererReply) -> Result<Self, RendererError> {
        if reply is Done {
            Ok(RendererOpeningView { done: self.done + 1, ..self })
        } else {
            Err(reply.rejection(self.pending()))
        }
    }

    /// The state after replies to the pending steps, up to the first failure.
    pub open spec fn run(self, replies: Seq<RendererReply>) -> Result<Self, RendererError>
        decreases replies.len(),
    {
        if replies.len() == 0 || self.complete() {
            Ok(self)
        } else {
            match self.step(replies[0]) {
                Ok(next) => next.run(replies.drop_first()),
                Err(error) => Err(error),
            }
        }
    }
}

impl RendererOpening {
    /// Whether the targets are bounded, and no more steps have succeeded than there are.
    pub open spec fn wf(&self) -> bool {
        self@.wf()
    }

    /// Starts the opening of a renderer with targets in this size; its steps are pending.
    pub fn start(width: u32, height: u32) -> (started: Result<Self, RendererError>)
        ensures
            match started {
                Ok(opening) => {
                    &&& dimensions_bounded(width, height)
                    &&& opening.wf()
                    &&& opening@ == (RendererOpeningView { done: 0, width, height })
                },
                Err(error) => !dimensions_bounded(width, height) && error is InvalidConfiguration,
            },
    {
        match validate_dimensions(width, height) {
            Ok(()) => Ok(RendererOpening { done: 0, width, height }),
            Err(error) => Err(error),
        }
    }

    /// The step to take next, or `None` when every step has succeeded.
    pub fn step(&self) -> (step: Option<RendererStep>)
        requires
            self.wf(),
        ensures
            step == if self@.complete() {
                None
            } else {
                Some(self@.pending())
            },
    {
        match self.done {
            0 => Some(RendererStep::OpenDevice),
            1 => Some(RendererStep::CloneDevice),
            2 => Some(RendererStep::GbmAllocator),
            3 => Some(RendererStep::GbmDevice),
            4 => Some(RendererStep::EglDisplay),
            5 => Some(RendererStep::EglContext),
            6 => Some(RendererStep::GlesRenderer),
            7 => Some(RendererStep::DrmNode),
            _ => None,
        }
    }

    /// Takes the reply to the pending step. A failure leaves the opening where it is.
    pub fn advance(&mut self, reply: RendererReply) -> (advanced: Result<(), RendererError>)
        requires
            old(self).wf(),
            !old(self)@.complete(),
            reply.answers(old(self)@.pending()),
        ensures
            final(self).wf(),
            match advanced {
                Ok(()) => old(self)@.step(reply) == Ok::<RendererOpeningView, RendererError>(
                    final(self)@,
                ),
                Err(error) => {
                    &&& old(self)@.step(reply) == Err::<RendererOpeningView, RendererError>(error)
                    &&& final(self)@ == old(self)@
                },
            },
    {
        match (self.step(), reply) {
            (Some(_), RendererReply::Done) => {
                self.done = self.done + 1;
                Ok(())
            },
            (Some(_), RendererReply::DeviceFailed(cause)) => Err(RendererError::OpenDevice(cause)),
            (Some(step), RendererReply::Failed) => Err(RendererError::Initialize(step.name())),
            (None, _) => unreached(),
        }
    }

    /// Starts the first pool of targets of a renderer that has been opened.
    pub fn into_pool<B, D>(self) -> (pool: TargetPool<B, D>)
        requires
            self.wf(),
            self@.complete(),
        ensures
            pool.wf(),
            pool@ == (PoolView {
                targets: Seq::<RenderTarget<B, D>>::empty(),
                width: self@.width,
                height: self@.height,
            }),
    {
        TargetPool { targets: Vec::new(), width: self.width, height: self.height }
    }
}

/// A pool of targets that is being allocated, all of them free.
pub struct TargetPool<B, D> {
    targets: Vec<RenderTarget<B, D>>,
    width: u32,
    height: u32,
}

/// What a [`TargetPool`] holds.
pub struct PoolView<B, D> {
    pub targets: Seq<RenderTarget<B, D>>,
    pub width: u32,
    pub height: u32,
}

impl<B, D> View for TargetPool<B, D> {
    type V = PoolView<B, D>;

    closed spec fn view(&self) -> PoolView<B, D> {
        PoolView { targets: self.targets@, width: self.width, height: self.height }
    }
}

impl<B, D> PoolView<B, D> {
    /// The invariant of a pool in the making: a bounded size, and no more targets than a pool has,
    /// all of them free.
    pub open spec fn wf(self) -> bool {
        &&& dimensions_bounded(self.width, self.height)
        &&& self.targets.len() <= TARGET_POOL_SIZE
        &&& forall|i: int| 0 <= i < self.targets.len() ==> !(#[trigger] self.targets[i]).leased
    }

    /// Whether every target has been allocated.
    pub open spec fn complete(self) -> bool {
        self.targets.len() == TARGET_POOL_SIZE
    }
}

impl<B, D> TargetPool<B, D> {
    /// Whether the pool holds only free targets, and no more than a pool has.
    pub open spec fn wf(&self) -> bool {
        self@.wf()
    }

    /// Starts a pool of targets in this size.
    fn new(width: u32, height: u32) -> (started: Result<Self, RendererError>)
        ensures
            match started {
                Ok(pool) => {
                    &&& dimensions_bounded(width, height)
                    &&& pool.wf()
                    &&& pool@ == (PoolView { targets: Seq::<RenderTarget<B, D>>::empty(), width, height })
                },
                Err(error) => !dimensions_bounded(width, height) && error is InvalidConfiguration,
            },
    {
        match validate_dimensions(width, height) {
            Ok(()) => Ok(TargetPool { targets: Vec::new(), width, height }),
            Err(error) => Err(error),
        }
    }

    /// Whether every target has been allocated.
    pub fn is_complete(&self) -> (complete: bool)
        requires
            self.wf(),
        ensures
            complete == self@.complete(),
    {
        self.targets.len() == TARGET_POOL_SIZE
    }

    /// The width and the height to allocate the next target in.
    pub fn target_size(&self) -> (size: (i32, i32))
        requires
            self.wf(),
        ensures
            size.0 == self@.width,
            size.1 == self@.height,
    {
        (self.width as i32, self.height as i32)
    }

    /// Takes the next target, or the news that it could not be allocated, which leaves the pool as
    /// it is.
    pub fn supply(&mut self, allocated: Option<(B, D)>) -> (supplied: Result<(), RendererError>)
        requires
            old(self).wf(),
            !old(self)@.complete(),
        ensures
            final(self).wf(),
            match supplied {
                Ok(()) => {
                    &&& allocated matches Some((buffer_object, dmabuf))
                    &&& final(self)@ == PoolView {
                        targets: old(self)@.targets.push(
                            RenderTarget { buffer_object, dmabuf, leased: false },
                        ),
                        ..old(self)@
                    }
                },
                Err(error) => {
                    &&& allocated is None
                    &&& error is Allocate
                    &&& final(self)@ == old(self)@
                },
            },
    {
        match allocated {
            Some((buffer_object, dmabuf)) => {
                self.targets.push(RenderTarget { buffer_object, dmabuf, leased: false });
                Ok(())
            },
            None => Err(RendererError::Allocate),
        }
    }
}

impl<R, A, B, D, N> GlesGbmTarget<R, A, B, D, N> {
    /// Joins an opened renderer with its first pool of targets.
    pub fn open(renderer: R, allocator: A, render_node: N, pool: TargetPool<B, D>) -> (target: Self)
        requires
            pool.wf(),
            pool@.complete(),
        ensures
            target.wf(),
            !target@.busy(),
            target@ == (TargetView {
                renderer,
                allocator,
                targets: pool@.targets,
                render_node,
                width: pool@.width,
                height: pool@.height,
            }),
    {
        GlesGbmTarget {
            renderer,
            allocator,
            targets: pool.targets,
            render_node,
            width: pool.width,
            height: pool.height,
        }
    }

    fn any_leased(&self) -> (busy: bool)
        ensures
            busy == self@.busy(),
    {
        let mut index: usize = 0;
        while index < self.targets.len()
            invariant
                index <= self.targets@.len(),
                forall|i: int| 0 <= i < index ==> !(#[trigger] self@.targets[i]).leased,
            decreases self.targets@.len() - index,
        {
            if self.targets[index].leased {
                assert(self@.targets[index as int].leased);
                return true;
            }
            index = index + 1;
        }
        false
    }

    /// Checks a new size and starts the pool that is to replace the current one: `None` when the
    /// targets already have that size. The current targets stay until the new pool is complete.
    pub fn resize(&self, width: u32, height: u32) -> (started: Result<
        Option<TargetPool<B, D>>,
        RendererError,
    >)
        ensures
            match started {
                Ok(None) => {
                    &&& dimensions_bounded(width, height)
                    &&& (width, height) == (self@.width, self@.height)
                },
                Ok(Some(pool)) => {
                    &&& dimensions_bounded(width, height)
                    &&& (width, height) != (self@.width, self@.height)
                    &&& !self@.busy()
                    &&& pool.wf()
                    &&& pool@ == (PoolView { targets: Seq::<RenderTarget<B, D>>::empty(), width, height })
                },
                Err(error) => if !dimensions_bounded(width, height) {
                    error is InvalidConfiguration
                } else {
                    &&& error is Busy
                    &&& (width, height) != (self@.width, self@.height)
                    &&& self@.busy()
                },
            },
    {
        let pool = match TargetPool::new(width, height) {
            Ok(pool) => pool,
            Err(error) => return Err(error),
        };
        if width == self.width && height == self.height {
            return Ok(None);
        }
        if self.any_leased() {
            return Err(RendererError::Busy);
        }
        Ok(Some(pool))
    }

    /// Replaces the targets by a complete pool, unless one of them is leased.
    pub fn replace_targets(&mut self, pool: TargetPool<B, D>) -> (replaced: Result<(), RendererError>)
        requires
            old(self).wf(),
            pool.wf(),
            pool@.complete(),
        ensures
            final(self).wf(),
            match replaced {
                Ok(()) => {
                    &&& !old(self)@.busy()
                    &&& !final(self)@.busy()
                    &&& final(self)@ == TargetView {
                        targets: pool@.targets,
                        width: pool@.width,
                        height: pool@.height,
                        ..old(self)@
                    }
                },
                Err(error) => {
                    &&& old(self)@.busy()
                    &&& error is Busy
                    &&& final(self)@ == old(self)@
                },
            },
    {
        if self.any_leased() {
            return Err(RendererError::Busy);
        }
        self.targets = pool.targets;
        self.width = pool.width;
        self.height = pool.height;
        Ok(())
    }
}

/// The line that reports a device which could not be opened.
pub fn open_device_message(cause: &str) -> (line: String)
    ensures
        line@ == "failed to open the DRM render node: "@ + cause@,
{
    let mut line = String::from_str("failed to open the DRM render node: ");
    line.append(cause);
    line
}

impl RendererError {
    /// The failure as one line. What the cause of a failed opening displays stands at its end.
    pub fn message(&self) -> (line: String)
        ensures
            match *self {
                RendererError::InvalidConfiguration => line@
                    == "invalid GLES/GBM render-target configuration"@,
                RendererError::OpenDevice(error) => exists|cause: String| #[trigger]
                    vstd::string::to_string_from_display_ensures(&error, cause) && line@
                        == "failed to open the DRM render node: "@ + cause@,
                RendererError::Initialize(step) => line@
                    == "failed to initialize the GLES/GBM renderer at "@ + step@,
                RendererError::Allocate => line@
                    == "failed to allocate the GLES/GBM render target"@,
                RendererError::Busy => line@ == "all GLES/GBM render targets are leased"@,
            },
    {
        match self {
            RendererError::InvalidConfiguration => String::from_str(
                "invalid GLES/GBM render-target configuration",
            ),
            RendererError::OpenDevice(error) => {
                let cause = error.to_string();
                open_device_message(cause.as_str())
            },
            RendererError::Initialize(step) => {
                let mut line = String::from_str("failed to initialize the GLES/GBM renderer at ");
                line.append(step);
                line
            },
            RendererError::Allocate => String::from_str(
                "failed to allocate the GLES/GBM render target",
            ),
            RendererError::Busy => String::from_str("all GLES/GBM render targets are leased"),
        }
    }
}

/// A renderer is open exactly when every one of its steps has succeeded.
pub proof fn law_renderer_opens_when_every_step_succeeds(
    opening: RendererOpeningView,
    replies: Seq<RendererReply>,
)
    requires
        opening.wf(),
    ensures
        (opening.run(replies) matches Ok(last) && last.complete()) <==> {
            &&& replies.len() >= RendererOpeningView::steps().len() - opening.done
            &&& forall|i: int|
                0 <= i < RendererOpeningView::steps().len() - opening.done
                    ==> #[trigger] replies[i] is Done
        },
    decreases replies.len(),
{
    if replies.len() > 0 && !opening.complete() {
        let rest = replies.drop_first();
        let left = RendererOpeningView::steps().len() - opening.done;
        if replies[0] is Done {
            let next = RendererOpeningView { done: opening.done + 1, ..opening };
            law_renderer_opens_when_every_step_succeeds(next, rest);
            if replies.len() >= left && (forall|i: int|
                0 <= i < left ==> #[trigger] replies[i] is Done) {
                assert forall|i: int| 0 <= i < left - 1 implies #[trigger] rest[i] is Done by {
                    assert(rest[i] == replies[i + 1]);
                }
            }
            if rest.len() >= left - 1 && (forall|i: int|
                0 <= i < left - 1 ==> #[trigger] rest[i] is Done) {
                assert forall|i: int| 0 <= i < left implies #[trigger] replies[i] is Done by {
                    if i > 0 {
                        assert(rest[i - 1] == replies[i]);
                    }
                }
            }
        }
    }
}

/// The opening of a renderer that fails reports the first step that failed.
pub proof fn law_renderer_reports_first_failure(
    opening: RendererOpeningView,
    replies: Seq<RendererReply>,
    failed: int,
)
    requires
        opening.wf(),
        0 <= failed < replies.len(),
        opening.done + failed < RendererOpeningView::steps().len(),
        forall|i: int| 0 <= i < failed ==> #[trigger] replies[i] is Done,
        !(replies[failed] is Done),
    ensures
        opening.run(replies) == Err::<RendererOpeningView, RendererError>(
            replies[failed].rejection(RendererOpeningView::steps()[opening.done + failed]),
        ),
    decreases failed,
{
    if failed > 0 {
        assert(replies[0] is Done);
        let rest = replies.drop_first();
        let next = RendererOpeningView { done: opening.done + 1, ..opening };
        assert forall|i: int| 0 <= i < failed - 1 implies #[trigger] rest[i] is Done by {
            assert(rest[i] == replies[i + 1]);
        }
        assert(rest[failed - 1] == replies[failed]);
        law_renderer_reports_first_failure(next, rest, failed - 1);
    }
}

/// A pool has room for a frame in use and the next one.
pub proof fn law_pool_holds_two_frames<R, A, B, D, N>(target: TargetView<R, A, B, D, N>)
    requires
        target.wf(),
        !target.busy(),
    ensures
        target.first_free(0),
        target.with_lease(0, true).first_free(1),
{
}

/// A leased target is never leased again before it is released: acquiring gives another one, or
/// none, and the lease stays.
pub proof fn law_leases_are_exclusive<R, A, B, D, N>(
    target: TargetView<R, A, B, D, N>,
    held: int,
    acquired: int,
)
    requires
        target.leased(held),
        target.first_free(acquired),
    ensures
        acquired != held,
        target.with_lease(acquired, true).leased(held),
        target.with_lease(acquired, true).leased(acquired),
{
}

/// Releasing what was acquired gives the pool back as it was.
pub proof fn law_release_undoes_acquire<R, A, B, D, N>(
    target: TargetView<R, A, B, D, N>,
    acquired: int,
)
    requires
        target.first_free(acquired),
    ensures
        target.with_lease(acquired, true).with_lease(acquired, false) == target,
{
    assert(target.with_lease(acquired, true).with_lease(acquired, false).targets
        =~= target.targets);
}

/// A target that is released can be acquired again.
pub proof fn law_released_target_is_free<R, A, B, D, N>(
    target: TargetView<R, A, B, D, N>,
    released: int,
)
    requires
        target.leased(released),
    ensures
        !target.with_lease(released, false).leased(released),
        !target.with_lease(released, false).exhausted(),
{
    assert(!target.with_lease(released, false).targets[released].leased);
}

/// Leasing and releasing keep every buffer with its export, and every other target as it is.
pub proof fn law_leasing_keeps_the_buffers<R, A, B, D, N>(
    target: TargetView<R, A, B, D, N>,
    index: int,
    leased: bool,
    i: int,
)
    requires
        0 <= index < target.targets.len(),
        0 <= i < target.targets.len(),
    ensures
        target.with_lease(index, leased).targets.len() == target.targets.len(),
        target.with_lease(index, leased).targets[i].buffer_object
            == target.targets[i].buffer_object,
        target.with_lease(index, leased).targets[i].dmabuf == target.targets[i].dmabuf,
        i != index ==> target.with_lease(index, leased).targets[i] == target.targets[i],
{
}

/// Dimensions are accepted exactly when both are between one and 8192.
pub proof fn law_dimensions_are_bounded(
    width: u32,
    height: u32,
    checked: Result<(), RendererError>,
)
    requires
        call_ensures(validate_dimensions, (width, height), checked),
    ensures
        checked is Ok <==> 1 <= width <= 8_192 && 1 <= height <= 8_192,
        checked matches Err(error) ==> error is InvalidConfiguration,
{
}

/// The first targets of a renderer are allocated in the size that was asked for, width by height,
/// and none of them is there at the start.
pub proof fn law_first_targets_have_the_asked_size<B, D>(
    width: u32,
    height: u32,
    started: Result<RendererOpening, RendererError>,
    opened: RendererOpening,
    pool: TargetPool<B, D>,
    size: (i32, i32),
)
    requires
        call_ensures(RendererOpening::start, (width, height), started),
        call_ensures(RendererOpening::into_pool::<B, D>, (opened,), pool),
        call_ensures(TargetPool::<B, D>::target_size, (&pool,), size),
    ensures
        started is Ok <==> 1 <= width <= 8_192 && 1 <= height <= 8_192,
        started matches Ok(opening) ==> {
            &&& opening@.width == width
            &&& opening@.height == height
            &&& opening@.done == 0
        },
        pool@.width == opened@.width,
        pool@.height == opened@.height,
        pool@.targets.len() == 0,
        size.0 == opened@.width,
        size.1 == opened@.height,
{
}

/// The opening of a renderer keeps the size that it was started with, goes one step further with
/// each success, and reports why the device could not be opened, or which other step failed.
pub proof fn law_renderers_open_step_by_step(
    reply: RendererReply,
    advanced: Result<(), RendererError>,
)
    ensures
        forall|opening: &mut RendererOpening| #[trigger]
            call_ensures(RendererOpening::advance, (opening, reply), advanced) ==> {
                &&& advanced is Ok <==> reply is Done
                &&& final(opening)@.width == opening@.width
                &&& final(opening)@.height == opening@.height
                &&& final(opening)@.done == opening@.done + if advanced is Ok {
                    1nat
                } else {
                    0
                }
                &&& reply matches RendererReply::DeviceFailed(cause) ==> advanced == Err::<
                    (),
                    RendererError,
                >(RendererError::OpenDevice(cause))
                &&& reply is Failed ==> (advanced matches Err(error) && error is Initialize)
            },
{
}

/// A target that was allocated joins the pool free and behind the others, with its buffer and its
/// export; one that could not be is reported and changes nothing.
pub proof fn law_allocated_targets_join_the_pool<B, D>(
    allocated: Option<(B, D)>,
    supplied: Result<(), RendererError>,
)
    ensures
        forall|pool: &mut TargetPool<B, D>| #[trigger]
            call_ensures(TargetPool::<B, D>::supply, (pool, allocated), supplied) ==> {
                &&& supplied is Ok <==> allocated is Some
                &&& allocated matches Some((buffer_object, dmabuf)) ==> {
                    let count = pool@.targets.len() as int;
                    &&& final(pool)@.targets.len() == count + 1
                    &&& final(pool)@.targets[count].buffer_object == buffer_object
                    &&& final(pool)@.targets[count].dmabuf == dmabuf
                    &&& !final(pool)@.targets[count].leased
                    &&& forall|i: int|
                        0 <= i < count ==> #[trigger] final(pool)@.targets[i] == pool@.targets[i]
                    &&& final(pool)@.width == pool@.width
                    &&& final(pool)@.height == pool@.height
                }
                &&& supplied matches Err(error) ==> error is Allocate && final(pool)@ == pool@
            },
{
}

/// A renderer is joined with its parts, each in its own place, and reports the dimensions of its
/// pool, its node and the number of its targets.
pub proof fn law_renderers_keep_their_parts<R, A, B, D, N: Copy>(
    renderer: R,
    allocator: A,
    render_node: N,
    pool: TargetPool<B, D>,
    target: GlesGbmTarget<R, A, B, D, N>,
    dimensions: (u32, u32),
    node: N,
    size: usize,
)
    requires
        call_ensures(
            GlesGbmTarget::<R, A, B, D, N>::open,
            (renderer, allocator, render_node, pool),
            target,
        ),
        call_ensures(GlesGbmTarget::<R, A, B, D, N>::dimensions, (&target,), dimensions),
        call_ensures(GlesGbmTarget::<R, A, B, D, N>::render_node, (&target,), node),
        call_ensures(GlesGbmTarget::<R, A, B, D, N>::pool_size, (&target,), size),
    ensures
        target@.renderer == renderer,
        target@.allocator == allocator,
        target@.render_node == render_node,
        target@.targets == pool@.targets,
        dimensions.0 == pool@.width,
        dimensions.1 == pool@.height,
        node == render_node,
        size == 2,
{
}

/// Acquiring leases the free target with the lowest number and changes nothing else; it gives none
/// exactly when every target is leased.
pub proof fn law_lowest_free_target_is_leased<R, A, B, D, N>(acquired: Option<usize>)
    ensures
        forall|target: &mut GlesGbmTarget<R, A, B, D, N>| #[trigger]
            call_ensures(
                GlesGbmTarget::<R, A, B, D, N>::acquire_target,
                (target,),
                acquired,
            ) ==> {
                &&& final(target)@.targets.len() == target@.targets.len()
                &&& forall|i: int|
                    0 <= i < target@.targets.len() ==> {
                        let before = target@.targets[i];
                        let after = #[trigger] final(target)@.targets[i];
                        &&& after.buffer_object == before.buffer_object
                        &&& after.dmabuf == before.dmabuf
                        &&& after.leased <==> before.leased || acquired == Some(i as usize)
                    }
                &&& acquired is None <==> forall|i: int|
                    0 <= i < target@.targets.len() ==> (#[trigger] target@.targets[i]).leased
                &&& acquired matches Some(index) ==> {
                    &&& index < target@.targets.len()
                    &&& !target@.targets[index as int].leased
                    &&& forall|i: int|
                        0 <= i < index ==> (#[trigger] target@.targets[i]).leased
                }
                &&& final(target)@.width == target@.width
                &&& final(target)@.height == target@.height
                &&& final(target)@.renderer == target@.renderer
            },
{
}

/// Releasing frees the target with the given number and no other, and says whether it was leased.
pub proof fn law_released_target_is_the_given_one<R, A, B, D, N>(index: usize, was_leased: bool)
    ensures
        forall|target: &mut GlesGbmTarget<R, A, B, D, N>| #[trigger]
            call_ensures(
                GlesGbmTarget::<R, A, B, D, N>::release_target,
                (target, index),
                was_leased,
            ) ==> {
                &&& was_leased <==> index < target@.targets.len() && target@.targets[index as int].leased
                &&& final(target)@.targets.len() == target@.targets.len()
                &&& forall|i: int|
                    0 <= i < target@.targets.len() ==> {
                        let before = target@.targets[i];
                        let after = #[trigger] final(target)@.targets[i];
                        &&& after.buffer_object == before.buffer_object
                        &&& after.dmabuf == before.dmabuf
                        &&& after.leased <==> before.leased && i != index
                    }
                &&& final(target)@.width == target@.width
                &&& final(target)@.height == target@.height
            },
{
}

/// The export of a target is handed out exactly while the target is leased.
pub proof fn law_exports_are_handed_out_on_lease<R, A, B, D, N>(
    target: GlesGbmTarget<R, A, B, D, N>,
    index: usize,
    dmabuf: Option<&D>,
)
    requires
        call_ensures(GlesGbmTarget::<R, A, B, D, N>::dmabuf, (&target, index), dmabuf),
    ensures
        dmabuf is Some <==> index < target@.targets.len() && target@.targets[index as int].leased,
        dmabuf matches Some(dmabuf) ==> *dmabuf == target@.targets[index as int].dmabuf,
{
}

/// A new size must be bounded; the current one changes nothing, leased or not; any other needs
/// every target to be free, and starts a pool in that size.
pub proof fn law_resizing_needs_free_targets<R, A, B, D, N>(
    target: GlesGbmTarget<R, A, B, D, N>,
    width: u32,
    height: u32,
    started: Result<Option<TargetPool<B, D>>, RendererError>,
)
    requires
        call_ensures(GlesGbmTarget::<R, A, B, D, N>::resize, (&target, width, height), started),
    ensures
        ({
            let bounded = 1 <= width <= 8_192 && 1 <= height <= 8_192;
            let same = width == target@.width && height == target@.height;
            let free = forall|i: int|
                0 <= i < target@.targets.len() ==> !(#[trigger] target@.targets[i]).leased;
            &&& !bounded ==> (started matches Err(error) && error is InvalidConfiguration)
            &&& bounded && same ==> (started matches Ok(pool) && pool is None)
            &&& bounded && !same && !free ==> (started matches Err(error) && error is Busy)
            &&& bounded && !same && free ==> {
                &&& started matches Ok(Some(pool))
                &&& pool@.width == width
                &&& pool@.height == height
                &&& pool@.targets.len() == 0
            }
        }),
{
    if forall|i: int| 0 <= i < target@.targets.len() ==> !(#[trigger] target@.targets[i]).leased {
        assert(!target@.busy());
    } else {
        let i = choose|i: int| 0 <= i < target@.targets.len() && (#[trigger] target@.targets[i]).leased;
        assert(target@.targets[i].leased);
        assert(target@.busy());
    }
}

/// Replacing the targets takes the targets and the size of the new pool, unless one of the current
/// targets is leased, which leaves everything as it is.
pub proof fn law_targets_are_replaced_together<R, A, B, D, N>(
    pool: TargetPool<B, D>,
    replaced: Result<(), RendererError>,
)
    ensures
        forall|target: &mut GlesGbmTarget<R, A, B, D, N>| #[trigger]
            call_ensures(
                GlesGbmTarget::<R, A, B, D, N>::replace_targets,
                (target, pool),
                replaced,
            ) ==> {
                &&& replaced is Ok ==> {
                    &&& final(target)@.targets == pool@.targets
                    &&& final(target)@.width == pool@.width
                    &&& final(target)@.height == pool@.height
                    &&& final(target)@.renderer == target@.renderer
                    &&& final(target)@.allocator == target@.allocator
                    &&& final(target)@.render_node == target@.render_node
                    &&& forall|i: int|
                        0 <= i < target@.targets.len() ==> !(#[trigger] target@.targets[i]).leased
                }
                &&& replaced matches Err(error) ==> {
                    &&& error is Busy
                    &&& final(target)@ == target@
                    &&& exists|i: int|
                        0 <= i < target@.targets.len() && (#[trigger] target@.targets[i]).leased
                }
            },
{
}

/// A binding that failed is reported, and one that succeeded is not.
pub proof fn law_failed_bindings_are_reported<R, A, B, D, N>(
    target: GlesGbmTarget<R, A, B, D, N>,
    bound: bool,
    checked: Result<(), RendererError>,
)
    requires
        call_ensures(
            GlesGbmTarget::<R, A, B, D, N>::bind_wayland_display,
            (&target, bound),
            checked,
        ),
    ensures
        checked is Ok <==> bound,
        checked matches Err(error) ==> (error matches RendererError::Initialize(step) && step@
            == "Wayland EGL binding"@),
{
}

/// The failure of a step other than the opening of the device carries the name of the step.
pub proof fn law_failed_steps_are_named(step: RendererStep)
    ensures
        RendererReply::Failed.answers(step) <==> !(step is OpenDevice) && !(step is CloneDevice),
        ({
            let error = RendererReply::Failed.rejection(step);
            &&& error matches RendererError::Initialize(name)
            &&& step is GbmAllocator ==> name@ == "GBM allocator"@
            &&& step is GbmDevice ==> name@ == "GBM device"@
            &&& step is EglDisplay ==> name@ == "EGL display"@
            &&& step is EglContext ==> name@ == "EGL context"@
            &&& step is GlesRenderer ==> name@ == "GLES renderer"@
            &&& step is DrmNode ==> name@ == "DRM node"@
        }),
{
}

/// A render pass gets the renderer and the export of a target exactly while the target is leased,
/// and what it leaves in them is all that changes.
pub proof fn law_render_passes_need_a_lease<R, A, B, D, N>(index: usize)
    ensures
        forall|target: &mut GlesGbmTarget<R, A, B, D, N>, parts: Option<(&mut R, &mut D)>| #[trigger]
            call_ensures(
                GlesGbmTarget::<R, A, B, D, N>::render_parts,
                (target, index),
                parts,
            ) ==> {
                &&& parts is Some <==> index < target@.targets.len()
                    && target@.targets[index as int].leased
                &&& parts is None ==> final(target)@ == target@
                &&& parts matches Some((renderer, dmabuf)) ==> {
                    &&& *renderer == target@.renderer
                    &&& *dmabuf == target@.targets[index as int].dmabuf
                    &&& final(target)@.renderer == *final(renderer)
                    &&& final(target)@.targets[index as int].dmabuf == *final(dmabuf)
                    &&& final(target)@.targets[index as int].leased
                    &&& final(target)@.targets.len() == target@.targets.len()
                    &&& forall|i: int|
                        0 <= i < target@.targets.len() && i != index ==> #[trigger] final(target)@.targets[i] == target@.targets[i]
                }
            },
{
}

} // verus!

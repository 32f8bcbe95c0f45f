//! Render targets: a framebuffer with colour attachments and a depth
//! attachment, all of one size.
//!
//! The host allocates the GPU objects and hands back their names; the
//! library assembles the description that the pipeline works with.

use vstd::prelude::*;
use crate::command::Command;
use crate::math::Vec4;
use crate::texture::Texture;

verus! {

/// Why a render target could not be created.
#[derive(Debug, PartialEq, Eq)]
pub enum Error {
    /// The host could not allocate the framebuffer or one of its attachments.
    FailedToCreateFramebuffer { message: String },
    /// The host handed back another number of colour attachments than asked for.
    AttachmentMismatch { expected: usize, found: usize },
}

/// What the host is asked to allocate: a framebuffer with `no_targets`
/// colour attachments and one depth attachment, each `width` by `height`.
#[derive(Clone, Copy, Debug, PartialEq, Eq, Structural)]
pub struct Request {
    pub width: usize,
    pub height: usize,
    pub no_targets: usize,
}

/// The GPU names of a framebuffer and its attachments, as the host got them.
#[derive(Debug, PartialEq, Eq)]
pub struct Allocation {
    pub framebuffer: u32,
    pub targets: Vec<u32>,
    pub depth_target: u32,
}

/// A render target with colour attachments and an optional depth attachment.
#[derive(Debug, PartialEq, Eq)]
pub struct ColorRendertarget {
    /// The name that the GPU gave to the framebuffer.
    pub id: u32,
    pub width: usize,
    pub height: usize,
    pub targets: Vec<Texture>,
    pub depth_target: Option<Texture>,
}

/// The mathematical content of a `ColorRendertarget`.
pub ghost struct RendertargetView {
    pub id: u32,
    pub width: usize,
    pub height: usize,
    pub targets: Seq<Texture>,
    pub depth_target: Option<Texture>,
}

impl View for ColorRendertarget {
    type V = RendertargetView;

    open spec fn view(&self) -> RendertargetView {
        RendertargetView {
            id: self.id,
            width: self.width,
            height: self.height,
            targets: self.targets@,
            depth_target: self.depth_target,
        }
    }
}

/// One texture of the given size for each name in `ids`, in the same order.
pub open spec fn attachments(ids: Seq<u32>, width: usize, height: usize) -> Seq<Texture> {
    Seq::new(ids.len(), |i: int| Texture { id: ids[i], width, height })
}

/// The textures of `targets`, each given the size `width` by `height`.
pub open spec fn resized(targets: Seq<Texture>, width: usize, height: usize) -> Seq<Texture> {
    Seq::new(targets.len(), |i: int| Texture { id: targets[i].id, width, height })
}

impl RendertargetView {
    /// Every attachment has the size of the target.
    pub open spec fn wf(self) -> bool {
        &&& forall|i: int|
            0 <= i < self.targets.len() ==> {
                &&& (#[trigger] self.targets[i]).width == self.width
                &&& self.targets[i].height == self.height
            }
        &&& self.depth_target matches Some(depth) ==> {
            &&& depth.width == self.width
            &&& depth.height == self.height
        }
    }

    /// The target has `no_targets` colour attachments and a depth
    /// attachment, and each of them is `width` by `height`.
    pub open spec fn complete(self, width: usize, height: usize, no_targets: usize) -> bool {
        &&& self.wf()
        &&& self.width == width
        &&& self.height == height
        &&& self.targets.len() == no_targets
        &&& self.depth_target is Some
    }

    /// The target that an allocation of the given size describes.
    pub open spec fn assembled(
        width: usize,
        height: usize,
        framebuffer: u32,
        targets: Seq<u32>,
        depth_target: u32,
    ) -> RendertargetView {
        RendertargetView {
            id: framebuffer,
            width,
            height,
            targets: attachments(targets, width, height),
            depth_target: Some(Texture { id: depth_target, width, height }),
        }
    }

    /// This target with the size `width` by `height`, on the target itself
    /// and on each of its attachments.
    pub open spec fn with_size(self, width: usize, height: usize) -> RendertargetView {
        RendertargetView {
            id: self.id,
            width,
            height,
            targets: resized(self.targets, width, height),
            depth_target: match self.depth_target {
                Some(depth) => Some(Texture { id: depth.id, width, height }),
                None => None,
            },
        }
    }
}

impl Request {
    /// The request for a target with `no_targets` colour attachments.
    pub fn new(width: usize, height: usize, no_targets: usize) -> (r: Request)
        ensures
            r == (Request { width, height, no_targets }),
    {
        Request { width, height, no_targets }
    }

    /// What comes of this request when the host answers it with `answer`:
    /// the host's own failure; a mismatch, if the host handed back another
    /// number of colour attachments; else the target that was asked for.
    pub open spec fn outcome(self, answer: Result<Allocation, Error>) -> Result<
        RendertargetView,
        Error,
    > {
        match answer {
            Err(e) => Err(e),
            Ok(allocation) => if allocation.targets@.len() == self.no_targets {
                Ok(
                    RendertargetView::assembled(
                        self.width,
                        self.height,
                        allocation.framebuffer,
                        allocation.targets@,
                        allocation.depth_target,
                    ),
                )
            } else {
                Err(
                    Error::AttachmentMismatch {
                        expected: self.no_targets,
                        found: allocation.targets@.len() as usize,
                    },
                )
            },
        }
    }

    /// Turns the host's answer to this request into a render target.
    pub fn fulfil(&self, answer: Result<Allocation, Error>) -> (r: Result<ColorRendertarget, Error>)
        ensures
            match self.outcome(answer) {
                Ok(view) => r matches Ok(target) && target@ == view && view.complete(
                    self.width,
                    self.height,
                    self.no_targets,
                ),
                Err(e) => r == Err::<ColorRendertarget, Error>(e),
            },
    {
        match answer {
            Err(e) => Err(e),
            Ok(allocation) => ColorRendertarget::new(
                self.width,
                self.height,
                self.no_targets,
                &allocation,
            ),
        }
    }
}

impl ColorRendertarget {
    /// Assembles the target that `allocation` describes, with `no_targets`
    /// colour attachments and a depth attachment, each `width` by `height`.
    ///
    /// Fails with `AttachmentMismatch` exactly when the allocation does not
    /// hold `no_targets` colour attachments.
    pub fn new(width: usize, height: usize, no_targets: usize, allocation: &Allocation) -> (r: Result<
        ColorRendertarget,
        Error,
    >)
        ensures
            allocation.targets@.len() == no_targets ==> r is Ok,
            r matches Ok(target) ==> {
                &&& allocation.targets@.len() == no_targets
                &&& target@ == RendertargetView::assembled(
                    width,
                    height,
                    allocation.framebuffer,
                    allocation.targets@,
                    allocation.depth_target,
                )
                &&& target@.complete(width, height, no_targets)
            },
            r matches Err(e) ==> e == (Error::AttachmentMismatch {
                expected: no_targets,
                found: allocation.targets@.len() as usize,
            }),
    {
        let found: usize = allocation.targets.len();
        if found != no_targets {
            return Err(Error::AttachmentMismatch { expected: no_targets, found });
        }
        let mut targets: Vec<Texture> = Vec::new();
        let mut i: usize = 0;
        while i < found
            invariant
                i <= found,
                found == allocation.targets@.len(),
                targets@.len() == i,
                forall|j: int|
                    0 <= j < i ==> #[trigger] targets@[j] == (Texture {
                        id: allocation.targets@[j],
                        width,
                        height,
                    }),
            decreases found - i,
        {
            targets.push(Texture::new(allocation.targets[i], width, height));
            i += 1;
        }
        proof {
            assert(targets@ =~= attachments(allocation.targets@, width, height));
        }
        Ok(
            ColorRendertarget {
                id: allocation.framebuffer,
                width,
                height,
                targets,
                depth_target: Some(Texture::new(allocation.depth_target, width, height)),
            },
        )
    }

    /// Assembles a target with a single colour attachment and a depth
    /// attachment: the shape of a final screen buffer.
    pub fn default(width: usize, height: usize, allocation: &Allocation) -> (r: Result<
        ColorRendertarget,
        Error,
    >)
        ensures
            allocation.targets@.len() == 1 ==> r is Ok,
            r matches Ok(target) ==> {
                &&& allocation.targets@.len() == 1
                &&& target@ == RendertargetView::assembled(
                    width,
                    height,
                    allocation.framebuffer,
                    allocation.targets@,
                    allocation.depth_target,
                )
                &&& target@.complete(width, height, 1)
            },
            r matches Err(e) ==> e == (Error::AttachmentMismatch {
                expected: 1,
                found: allocation.targets@.len() as usize,
            }),
    {
        ColorRendertarget::new(width, height, 1, allocation)
    }

    /// The command that makes this target the destination of the draws
    /// that follow.
    pub fn bind(&self) -> (c: Command)
        ensures
            c == (Command::BindRendertarget {
                framebuffer: self.id,
                width: self.width,
                height: self.height,
            }),
    {
        Command::BindRendertarget { framebuffer: self.id, width: self.width, height: self.height }
    }

    /// The command that clears the bound target to `color`.
    pub fn clear(&self, color: &Vec4) -> (c: Command)
        ensures
            c == (Command::Clear { color: *color }),
    {
        Command::Clear { color: *color }
    }

    /// Gives the target, and each of its attachments, a new logical size.
    /// The GPU objects stay the same.
    pub fn set_size(&mut self, width: usize, height: usize)
        ensures
            final(self)@ == old(self)@.with_size(width, height),
            final(self)@.wf(),
    {
        let count: usize = self.targets.len();
        let mut targets: Vec<Texture> = Vec::new();
        let mut i: usize = 0;
        while i < count
            invariant
                i <= count,
                count == self.targets@.len(),
                targets@.len() == i,
                forall|j: int|
                    0 <= j < i ==> #[trigger] targets@[j] == (Texture {
                        id: self.targets@[j].id,
                        width,
                        height,
                    }),
            decreases count - i,
        {
            targets.push(Texture::new(self.targets[i].id, width, height));
            i += 1;
        }
        proof {
            assert(targets@ =~= resized(self.targets@, width, height));
        }
        let depth_target = match self.depth_target {
            Some(depth) => Some(Texture::new(depth.id, width, height)),
            None => None,
        };
        self.width = width;
        self.height = height;
        self.targets = targets;
        self.depth_target = depth_target;
    }
}

} // verus!

//! The narrow interface to the external execution engine, modeled as
//! data: a recording is an ordered list of commands over buffer and
//! image proxies. The engine that executes a recording must honor the
//! data dependencies between commands; this module guarantees, for every
//! recording the library builds, that no command touches a resource
//! after it is freed and that nothing is freed twice.

use crate::resolve::RampRow;
use vstd::prelude::*;

verus! {

/// A 3D workgroup count.
#[derive(Clone, Copy, PartialEq, Eq, Structural, Debug)]
pub struct WorkgroupSize {
    /// Workgroups along x.
    pub x: u32,
    /// Workgroups along y.
    pub y: u32,
    /// Workgroups along z.
    pub z: u32,
}

/// Opaque identity of a compiled kernel.
#[derive(Clone, Copy, PartialEq, Eq, Structural, Debug)]
pub struct ShaderId(pub usize);

/// A handle to a GPU buffer of a given byte size.
#[derive(Clone, Copy, PartialEq, Eq, Structural, Debug)]
pub struct BufProxy {
    /// Identity within the recording.
    pub id: u64,
    /// Size in bytes.
    pub size: u64,
}

/// A handle to a GPU image.
#[derive(Clone, Copy, PartialEq, Eq, Structural, Debug)]
pub struct ImageProxy {
    /// Identity within the recording.
    pub id: u64,
    /// Width in pixels.
    pub width: u32,
    /// Height in pixels.
    pub height: u32,
}

/// Either kind of resource handle.
#[derive(Clone, Copy, PartialEq, Eq, Structural, Debug)]
pub enum ResourceProxy {
    /// A buffer.
    Buf(BufProxy),
    /// An image.
    Image(ImageProxy),
}

impl ResourceProxy {
    /// The identity of the underlying resource.
    pub open spec fn spec_id(self) -> u64 {
        match self {
            ResourceProxy::Buf(b) => b.id,
            ResourceProxy::Image(im) => im.id,
        }
    }

    /// The identity of the underlying resource.
    pub fn res_id(&self) -> (r: u64)
        ensures
            r == self.spec_id(),
    {
        match self {
            ResourceProxy::Buf(b) => b.id,
            ResourceProxy::Image(im) => im.id,
        }
    }
}

/// Pixel content for an image upload. Gradient ramp rows carry their
/// stop definitions; the engine rasterizes each row (one pixel row per
/// ramp) before upload, that interpolation being float work the library
/// delegates, like the kernels' own math.
#[derive(Clone, Debug)]
pub enum ImageSource {
    /// Host bytes, uploaded as given.
    Bytes(Vec<u8>),
    /// Gradient ramp rows to rasterize.
    Ramps(Vec<RampRow>),
}

/// One engine command.
#[derive(Clone, Debug)]
pub enum Command {
    /// Upload host bytes into a new buffer.
    Upload(BufProxy, Vec<u8>),
    /// Upload host bytes into a new uniform buffer.
    UploadUniform(BufProxy, Vec<u8>),
    /// Upload pixels into a new image.
    UploadImage(ImageProxy, ImageSource),
    /// Write the pixels of the image resource with the given identity
    /// into a region (x, y, width, height) of an existing image.
    WriteImage(ImageProxy, u32, u32, u32, u32, u64),
    /// Dispatch a kernel over a 3D workgroup count against an ordered
    /// list of bound resources.
    Dispatch(ShaderId, WorkgroupSize, Vec<ResourceProxy>),
    /// Dispatch a kernel with a workgroup count read from a buffer at a
    /// byte offset.
    DispatchIndirect(ShaderId, BufProxy, u64, Vec<ResourceProxy>),
    /// Request a host-readable download of a buffer.
    Download(BufProxy),
    /// Zero a buffer.
    Clear(BufProxy),
    /// Free a buffer.
    FreeBuf(BufProxy),
    /// Free an image.
    FreeImage(ImageProxy),
}

/// Pixel content of an image upload, as spec data.
pub enum ImageSourceView {
    /// Host bytes, uploaded as given.
    Bytes(Seq<u8>),
    /// Gradient ramp rows to rasterize.
    Ramps(Seq<crate::resolve::RampRowView>),
}

/// The value of one command, as spec data: payload vectors become
/// sequences, so that contracts can write whole command lists down.
pub enum CmdView {
    /// Upload host bytes into a new buffer.
    Upload(BufProxy, Seq<u8>),
    /// Upload host bytes into a new uniform buffer.
    UploadUniform(BufProxy, Seq<u8>),
    /// Upload pixels into a new image.
    UploadImage(ImageProxy, ImageSourceView),
    /// Write an image resource into a region of an existing image.
    WriteImage(ImageProxy, u32, u32, u32, u32, u64),
    /// Dispatch a kernel over a workgroup count against bound resources.
    Dispatch(ShaderId, WorkgroupSize, Seq<ResourceProxy>),
    /// Dispatch a kernel with a device-read workgroup count.
    DispatchIndirect(ShaderId, BufProxy, u64, Seq<ResourceProxy>),
    /// Request a host-readable download of a buffer.
    Download(BufProxy),
    /// Zero a buffer.
    Clear(BufProxy),
    /// Free a buffer.
    FreeBuf(BufProxy),
    /// Free an image.
    FreeImage(ImageProxy),
}

/// The value of an image source, as spec data.
pub open spec fn image_source_view(s: ImageSource) -> ImageSourceView {
    match s {
        ImageSource::Bytes(b) => ImageSourceView::Bytes(b@),
        ImageSource::Ramps(rows) => ImageSourceView::Ramps(crate::resolve::ramp_rows_view(rows@)),
    }
}

/// The value of one command, as spec data.
pub open spec fn cmd_view(c: Command) -> CmdView {
    match c {
        Command::Upload(b, data) => CmdView::Upload(b, data@),
        Command::UploadUniform(b, data) => CmdView::UploadUniform(b, data@),
        Command::UploadImage(im, s) => CmdView::UploadImage(im, image_source_view(s)),
        Command::WriteImage(im, x, y, w, h, id) => CmdView::WriteImage(im, x, y, w, h, id),
        Command::Dispatch(s, wg, rs) => CmdView::Dispatch(s, wg, rs@),
        Command::DispatchIndirect(s, b, off, rs) => CmdView::DispatchIndirect(s, b, off, rs@),
        Command::Download(b) => CmdView::Download(b),
        Command::Clear(b) => CmdView::Clear(b),
        Command::FreeBuf(b) => CmdView::FreeBuf(b),
        Command::FreeImage(im) => CmdView::FreeImage(im),
    }
}

/// The values of a command list, as spec data.
pub open spec fn cmds_view(cmds: Seq<Command>) -> Seq<CmdView> {
    cmds.map_values(|c: Command| cmd_view(c))
}

/// Mapping a command list extends element-wise over a push.
pub proof fn lemma_cmds_view_push(s: Seq<Command>, c: Command)
    ensures
        cmds_view(s.push(c)) == cmds_view(s).push(cmd_view(c)),
{
    assert(cmds_view(s.push(c)) =~= cmds_view(s).push(cmd_view(c)));
}

/// The command that frees a resource.
pub open spec fn free_view(r: ResourceProxy) -> CmdView {
    match r {
        ResourceProxy::Buf(b) => CmdView::FreeBuf(b),
        ResourceProxy::Image(im) => CmdView::FreeImage(im),
    }
}

/// Whether command `c` touches resource `id` (reads, writes or creates
/// it).
pub open spec fn cmd_uses(c: Command, id: u64) -> bool {
    match c {
        Command::Upload(b, _) => b.id == id,
        Command::UploadUniform(b, _) => b.id == id,
        Command::UploadImage(im, _) => im.id == id,
        Command::WriteImage(im, _, _, _, _, _) => im.id == id,
        Command::Dispatch(_, _, rs) => exists|k: int| 0 <= k < rs.len() && rs[k].spec_id() == id,
        Command::DispatchIndirect(_, b, _, rs) => b.id == id || exists|k: int|
            0 <= k < rs.len() && rs[k].spec_id() == id,
        Command::Download(b) => b.id == id,
        Command::Clear(b) => b.id == id,
        Command::FreeBuf(_) => false,
        Command::FreeImage(_) => false,
    }
}

/// Whether command `c` frees resource `id`.
pub open spec fn cmd_frees(c: Command, id: u64) -> bool {
    match c {
        Command::FreeBuf(b) => b.id == id,
        Command::FreeImage(im) => im.id == id,
        _ => false,
    }
}

/// The resource-lifetime discipline: once a command frees a resource, no
/// later command may touch it, and nothing frees it again.
pub open spec fn lifetimes_ok(cmds: Seq<Command>) -> bool {
    forall|i: int, j: int, id: u64|
        #![trigger cmd_frees(cmds[i], id), cmd_uses(cmds[j], id)]
        #![trigger cmd_frees(cmds[i], id), cmd_frees(cmds[j], id)]
        0 <= i < j < cmds.len() && cmd_frees(cmds[i], id) ==> !cmd_uses(cmds[j], id)
            && !cmd_frees(cmds[j], id)
}

/// An ordered list of engine commands under construction, tracking which
/// resources are currently live.
pub struct Recording {
    /// The commands recorded so far.
    pub commands: Vec<Command>,
    /// The next fresh resource identity.
    pub next_id: u64,
    /// Identities of the resources currently live.
    pub live: Ghost<Set<u64>>,
}

impl Recording {
    /// The construction invariant: the commands respect resource
    /// lifetimes, freed resources are not live, and everything mentioned
    /// so far lies below the next fresh identity.
    pub open spec fn inv(self) -> bool {
        &&& lifetimes_ok(self.commands@)
        &&& forall|i: int, id: u64|
            0 <= i < self.commands@.len() && #[trigger] cmd_frees(self.commands@[i], id)
                ==> !self.live@.contains(id)
        &&& forall|id: u64| self.live@.contains(id) ==> id < self.next_id
        &&& forall|i: int, id: u64|
            0 <= i < self.commands@.len() && #[trigger] cmd_uses(self.commands@[i], id) ==> id
                < self.next_id
        &&& forall|i: int, id: u64|
            0 <= i < self.commands@.len() && #[trigger] cmd_frees(self.commands@[i], id) ==> id
                < self.next_id
    }

    /// An empty recording.
    pub fn new() -> (r: Recording)
        ensures
            r.inv(),
            r.commands@.len() == 0,
            r.live@ == Set::<u64>::empty(),
            r.next_id == 0,
    {
        Recording { commands: Vec::new(), next_id: 0, live: Ghost(Set::empty()) }
    }

    /// Brings a fresh buffer proxy to life without recording a command;
    /// the engine materializes it before its first consumer.
    pub fn new_buf(&mut self, size: u64) -> (r: BufProxy)
        requires
            old(self).inv(),
            old(self).next_id < u64::MAX,
        ensures
            self_step_alloc(*old(self), *final(self), r.id),
            r.size == size,
            final(self).inv(),
    {
        let id = self.next_id;
        self.next_id = self.next_id + 1;
        proof {
            self.live@ = self.live@.insert(id);
        }
        BufProxy { id, size }
    }

    /// Brings a fresh image proxy to life without recording a command.
    pub fn new_image(&mut self, width: u32, height: u32) -> (r: ImageProxy)
        requires
            old(self).inv(),
            old(self).next_id < u64::MAX,
        ensures
            self_step_alloc(*old(self), *final(self), r.id),
            r.width == width,
            r.height == height,
            final(self).inv(),
    {
        let id = self.next_id;
        self.next_id = self.next_id + 1;
        proof {
            self.live@ = self.live@.insert(id);
        }
        ImageProxy { id, width, height }
    }

    /// Pushes a command that only touches live resources; the workhorse
    /// behind every recording operation.
    fn push_cmd(&mut self, c: Command)
        requires
            old(self).inv(),
            forall|id: u64| cmd_uses(c, id) ==> old(self).live@.contains(id),
            forall|id: u64| cmd_frees(c, id) ==> old(self).live@.contains(id),
            forall|id: u64| cmd_uses(c, id) || cmd_frees(c, id) ==> id < old(self).next_id,
        ensures
            final(self).commands@ == old(self).commands@.push(c),
            final(self).next_id == old(self).next_id,
            final(self).live@ == old(self).live@.difference(Set::new(|id: u64| cmd_frees(c, id))),
            final(self).inv(),
    {
        self.commands.push(c);
        proof {
            self.live@ = self.live@.difference(Set::new(|id: u64| cmd_frees(c, id)));
            let cmds = self.commands@;
            let n = cmds.len() - 1;
            assert forall|i: int, j: int, id: u64|
                #![trigger cmd_frees(cmds[i], id), cmd_uses(cmds[j], id)]
                #![trigger cmd_frees(cmds[i], id), cmd_frees(cmds[j], id)]
                0 <= i < j < cmds.len() && cmd_frees(cmds[i], id) implies !cmd_uses(cmds[j], id)
                && !cmd_frees(cmds[j], id) by {
                if j < n {
                    assert(lifetimes_ok(old(self).commands@));
                    assert(cmd_frees(old(self).commands@[i], id));
                    assert(!cmd_uses(old(self).commands@[j], id));
                } else {
                    // The new command touches only live resources, and a
                    // previously freed resource is no longer live.
                    assert(cmd_frees(old(self).commands@[i], id));
                    assert(!old(self).live@.contains(id));
                }
            }
        }
    }

    /// Uploads host bytes into a fresh buffer.
    pub fn upload(&mut self, data: Vec<u8>) -> (r: BufProxy)
        requires
            old(self).inv(),
            old(self).next_id < u64::MAX,
        ensures
            final(self).inv(),
            final(self).commands@ == old(self).commands@.push(Command::Upload(r, data)),
            final(self).next_id == old(self).next_id + 1,
            final(self).live@ == old(self).live@.insert(r.id),
            r.id == old(self).next_id,
            r.size == data@.len() as u64,
    {
        let size = data.len() as u64;
        let buf = self.new_buf(size);
        let ghost pre = *self;
        self.push_cmd(Command::Upload(buf, data));
        proof {
            assert(final(self).live@ =~= old(self).live@.insert(buf.id));
        }
        buf
    }

    /// Uploads host bytes into a fresh uniform buffer.
    pub fn upload_uniform(&mut self, data: Vec<u8>) -> (r: BufProxy)
        requires
            old(self).inv(),
            old(self).next_id < u64::MAX,
        ensures
            final(self).inv(),
            final(self).commands@ == old(self).commands@.push(Command::UploadUniform(r, data)),
            final(self).next_id == old(self).next_id + 1,
            final(self).live@ == old(self).live@.insert(r.id),
            r.id == old(self).next_id,
            r.size == data@.len() as u64,
    {
        let size = data.len() as u64;
        let buf = self.new_buf(size);
        self.push_cmd(Command::UploadUniform(buf, data));
        proof {
            assert(final(self).live@ =~= old(self).live@.insert(buf.id));
        }
        buf
    }

    /// Uploads pixel content into a fresh image.
    pub fn upload_image(&mut self, width: u32, height: u32, source: ImageSource) -> (r: ImageProxy)
        requires
            old(self).inv(),
            old(self).next_id < u64::MAX,
        ensures
            final(self).inv(),
            final(self).commands@ == old(self).commands@.push(Command::UploadImage(r, source)),
            final(self).next_id == old(self).next_id + 1,
            final(self).live@ == old(self).live@.insert(r.id),
            r.id == old(self).next_id,
            r.width == width,
            r.height == height,
    {
        let img = self.new_image(width, height);
        self.push_cmd(Command::UploadImage(img, source));
        proof {
            assert(final(self).live@ =~= old(self).live@.insert(img.id));
        }
        img
    }

    /// Writes the pixels of the image resource `image_id` into a region
    /// of an existing atlas image.
    pub fn write_image(
        &mut self,
        atlas: ImageProxy,
        x: u32,
        y: u32,
        width: u32,
        height: u32,
        image_id: u64,
    )
        requires
            old(self).inv(),
            old(self).live@.contains(atlas.id),
        ensures
            final(self).inv(),
            final(self).commands@ == old(self).commands@.push(
                Command::WriteImage(atlas, x, y, width, height, image_id),
            ),
            final(self).next_id == old(self).next_id,
            final(self).live@ == old(self).live@,
    {
        self.push_cmd(Command::WriteImage(atlas, x, y, width, height, image_id));
        proof {
            assert(final(self).live@ =~= old(self).live@);
        }
    }

    /// Dispatches a kernel against bound resources, all of which must be
    /// live.
    pub fn dispatch(&mut self, shader: ShaderId, wg: WorkgroupSize, resources: Vec<ResourceProxy>)
        requires
            old(self).inv(),
            forall|k: int|
                0 <= k < resources@.len() ==> old(self).live@.contains(
                    (#[trigger] resources@[k]).spec_id(),
                ),
        ensures
            final(self).inv(),
            final(self).commands@ == old(self).commands@.push(
                Command::Dispatch(shader, wg, resources),
            ),
            final(self).next_id == old(self).next_id,
            final(self).live@ == old(self).live@,
    {
        proof {
            assert forall|id: u64| cmd_uses(Command::Dispatch(shader, wg, resources), id)
                implies old(self).live@.contains(id) by {
                let k = choose|k: int|
                    0 <= k < resources@.len() && resources@[k].spec_id() == id;
                assert(old(self).live@.contains(resources@[k].spec_id()));
            }
        }
        self.push_cmd(Command::Dispatch(shader, wg, resources));
        proof {
            assert(final(self).live@ =~= old(self).live@);
        }
    }

    /// Dispatches a kernel with its workgroup count read from a live
    /// buffer at a byte offset.
    pub fn dispatch_indirect(
        &mut self,
        shader: ShaderId,
        count_buf: BufProxy,
        offset: u64,
        resources: Vec<ResourceProxy>,
    )
        requires
            old(self).inv(),
            old(self).live@.contains(count_buf.id),
            forall|k: int|
                0 <= k < resources@.len() ==> old(self).live@.contains(
                    (#[trigger] resources@[k]).spec_id(),
                ),
        ensures
            final(self).inv(),
            final(self).commands@ == old(self).commands@.push(
                Command::DispatchIndirect(shader, count_buf, offset, resources),
            ),
            final(self).next_id == old(self).next_id,
            final(self).live@ == old(self).live@,
    {
        proof {
            assert forall|id: u64| cmd_uses(
                Command::DispatchIndirect(shader, count_buf, offset, resources),
                id,
            ) implies old(self).live@.contains(id) by {
                if id != count_buf.id {
                    let k = choose|k: int|
                        0 <= k < resources@.len() && resources@[k].spec_id() == id;
                    assert(old(self).live@.contains(resources@[k].spec_id()));
                }
            }
        }
        self.push_cmd(Command::DispatchIndirect(shader, count_buf, offset, resources));
        proof {
            assert(final(self).live@ =~= old(self).live@);
        }
    }

    /// Requests a host-readable download of a live buffer.
    pub fn download(&mut self, buf: BufProxy)
        requires
            old(self).inv(),
            old(self).live@.contains(buf.id),
        ensures
            final(self).inv(),
            final(self).commands@ == old(self).commands@.push(Command::Download(buf)),
            final(self).next_id == old(self).next_id,
            final(self).live@ == old(self).live@,
    {
        self.push_cmd(Command::Download(buf));
        proof {
            assert(final(self).live@ =~= old(self).live@);
        }
    }

    /// Zeroes a live buffer.
    pub fn clear_all(&mut self, buf: BufProxy)
        requires
            old(self).inv(),
            old(self).live@.contains(buf.id),
        ensures
            final(self).inv(),
            final(self).commands@ == old(self).commands@.push(Command::Clear(buf)),
            final(self).next_id == old(self).next_id,
            final(self).live@ == old(self).live@,
    {
        self.push_cmd(Command::Clear(buf));
        proof {
            assert(final(self).live@ =~= old(self).live@);
        }
    }

    /// Frees a live resource; it may not be touched afterwards.
    pub fn free_resource(&mut self, resource: ResourceProxy)
        requires
            old(self).inv(),
            old(self).live@.contains(resource.spec_id()),
        ensures
            final(self).inv(),
            final(self).commands@ == old(self).commands@.push(
                match resource {
                    ResourceProxy::Buf(b) => Command::FreeBuf(b),
                    ResourceProxy::Image(im) => Command::FreeImage(im),
                },
            ),
            final(self).next_id == old(self).next_id,
            final(self).live@ == old(self).live@.remove(resource.spec_id()),
    {
        let c = match resource {
            ResourceProxy::Buf(b) => Command::FreeBuf(b),
            ResourceProxy::Image(im) => Command::FreeImage(im),
        };
        self.push_cmd(c);
        proof {
            assert(final(self).live@ =~= old(self).live@.remove(resource.spec_id()));
        }
    }

    /// Frees a live buffer.
    pub fn free_buf(&mut self, buf: BufProxy)
        requires
            old(self).inv(),
            old(self).live@.contains(buf.id),
        ensures
            final(self).inv(),
            final(self).commands@ == old(self).commands@.push(Command::FreeBuf(buf)),
            final(self).next_id == old(self).next_id,
            final(self).live@ == old(self).live@.remove(buf.id),
    {
        self.push_cmd(Command::FreeBuf(buf));
        proof {
            assert(final(self).live@ =~= old(self).live@.remove(buf.id));
        }
    }

    /// Frees a live image.
    pub fn free_image(&mut self, image: ImageProxy)
        requires
            old(self).inv(),
            old(self).live@.contains(image.id),
        ensures
            final(self).inv(),
            final(self).commands@ == old(self).commands@.push(Command::FreeImage(image)),
            final(self).next_id == old(self).next_id,
            final(self).live@ == old(self).live@.remove(image.id),
    {
        self.push_cmd(Command::FreeImage(image));
        proof {
            assert(final(self).live@ =~= old(self).live@.remove(image.id));
        }
    }
}

/// The shape of an allocation step: one fresh identity becomes live, the
/// command list does not change.
pub open spec fn self_step_alloc(pre: Recording, post: Recording, id: u64) -> bool {
    &&& id == pre.next_id
    &&& post.next_id == pre.next_id + 1
    &&& post.commands@ == pre.commands@
    &&& post.live@ == pre.live@.insert(id)
}

} // verus!

//! Cards that EGL finds and OpenGL ES renders on.

use vstd::prelude::*;

use crate::backend::SwapBuffersError;
use crate::utils::text::{contains_text, texts};

use super::{
    created_of, extend_created, kept, missing, missing_nodes, nodes_of, retain_known, ApiDevice,
};

verus! {

/// Why a card could not be used, with the code of the error.
#[derive(Clone, Copy, Debug, PartialEq, Eq, Structural)]
pub enum Error {
    Egl(u32),
    /// OpenGL failed, in a way that tells what may be done about it.
    Gl(SwapBuffersError),
    /// The node could not be found.
    DrmNode,
}

impl vstd::std_specs::convert::FromSpecImpl<Error> for SwapBuffersError {
    open spec fn obeys_from_spec() -> bool {
        true
    }

    open spec fn from_spec(error: Error) -> SwapBuffersError {
        match error {
            Error::DrmNode | Error::Egl(_) => SwapBuffersError::ContextLost,
            Error::Gl(error) => error,
        }
    }
}

impl From<Error> for SwapBuffersError {
    fn from(error: Error) -> (r: SwapBuffersError) {
        match error {
            Error::DrmNode | Error::Egl(_) => SwapBuffersError::ContextLost,
            Error::Gl(error) => error,
        }
    }
}

/// A card that is rendered on.
#[derive(Debug)]
pub struct EglGlesDevice<R> {
    pub node: u64,
    pub renderer: R,
}

impl<R> ApiDevice for EglGlesDevice<R> {
    open spec fn spec_node(&self) -> u64 {
        self.node
    }

    fn node(&self) -> (node: u64) {
        self.node
    }
}

/// The nodes of the devices that have one.
pub open spec fn render_nodes(devices: Seq<Option<u64>>) -> Seq<u64>
    decreases devices.len(),
{
    if devices.len() == 0 {
        Seq::empty()
    } else {
        match devices.last() {
            Some(node) => render_nodes(devices.drop_last()).push(node),
            None => render_nodes(devices.drop_last()),
        }
    }
}

/// Drops the cards that are gone, and gives the nodes of the cards that are new. `devices` are
/// the devices that EGL lists, each with its render node, if it has one.
pub fn enumerate<R>(list: &mut Vec<EglGlesDevice<R>>, devices: &Vec<Option<u64>>) -> (new: Vec<u64>)
    ensures
        final(list)@ == kept(old(list)@, render_nodes(devices@).to_set()),
        new@ == missing(render_nodes(devices@), nodes_of(final(list)@)),
{
    let mut nodes: Vec<u64> = Vec::new();
    assert(devices@.take(0) =~= Seq::<Option<u64>>::empty());
    for i in 0..devices.len()
        invariant
            nodes@ == render_nodes(devices@.take(i as int)),
    {
        assert(devices@.take(i as int + 1).drop_last() =~= devices@.take(i as int));
        if let Some(node) = devices[i] {
            nodes.push(node);
        }
    }
    assert(devices@.take(devices.len() as int) =~= devices@);
    retain_known(list, &nodes);
    missing_nodes(&nodes, list)
}

/// Adds the cards that could be set up behind those that are there.
pub fn add_devices<R>(list: &mut Vec<EglGlesDevice<R>>, created: Vec<Option<EglGlesDevice<R>>>)
    ensures
        final(list)@ == old(list)@ + created_of(created@),
{
    extend_created(list, created);
}

/// The name of this backend.
pub fn identifier() -> (name: &'static str)
    ensures
        name@ == "egl_gles"@,
{
    "egl_gles"
}

/// Why a buffer of EGL could not be imported, with the code of the error.
#[derive(Clone, Copy, Debug, PartialEq, Eq, Structural)]
pub enum ImportError {
    /// The renderer cannot take over images of EGL at all.
    GLExtensionNotSupported,
    /// No display is bound.
    NotManaged,
    MakeCurrent(u32),
    BufferAccess(u32),
    BindBuffer(u32),
    /// No device could import the buffer.
    DeviceMissing,
}

/// What is done to import a buffer.
#[derive(Clone, Copy, Debug, PartialEq, Eq, Structural)]
pub enum ImportStep {
    MakeCurrent,
    ReadBuffer,
    CreateDmabuf,
}

/// Whether a renderer can be asked to import a buffer of EGL.
pub fn try_import_egl(extensions: &Vec<String>, has_reader: bool) -> (r: Result<(), ImportError>)
    ensures
        r == (if !texts(extensions@).contains("GL_OES_EGL_image"@) {
            Err::<(), ImportError>(ImportError::GLExtensionNotSupported)
        } else if !has_reader {
            Err(ImportError::NotManaged)
        } else {
            Ok(())
        }),
{
    if !contains_text(extensions, "GL_OES_EGL_image") {
        return Err(ImportError::GLExtensionNotSupported);
    }
    if !has_reader {
        return Err(ImportError::NotManaged);
    }
    Ok(())
}

/// What comes of the steps of an import.
pub fn import_step(step: ImportStep, outcome: Result<(), u32>) -> (r: Result<
    Option<ImportStep>,
    ImportError,
>)
    ensures
        r == (match (step, outcome) {
            (ImportStep::MakeCurrent, Ok(_)) => Ok::<Option<ImportStep>, ImportError>(
                Some(ImportStep::ReadBuffer),
            ),
            (ImportStep::ReadBuffer, Ok(_)) => Ok(Some(ImportStep::CreateDmabuf)),
            (ImportStep::CreateDmabuf, Ok(_)) => Ok(None),
            (ImportStep::MakeCurrent, Err(code)) => Err(ImportError::MakeCurrent(code)),
            (ImportStep::ReadBuffer, Err(code)) => Err(ImportError::BufferAccess(code)),
            (ImportStep::CreateDmabuf, Err(code)) => Err(ImportError::BindBuffer(code)),
        }),
{
    match (step, outcome) {
        (ImportStep::MakeCurrent, Ok(_)) => Ok(Some(ImportStep::ReadBuffer)),
        (ImportStep::ReadBuffer, Ok(_)) => Ok(Some(ImportStep::CreateDmabuf)),
        (ImportStep::CreateDmabuf, Ok(_)) => Ok(None),
        (ImportStep::MakeCurrent, Err(code)) => Err(ImportError::MakeCurrent(code)),
        (ImportStep::ReadBuffer, Err(code)) => Err(ImportError::BufferAccess(code)),
        (ImportStep::CreateDmabuf, Err(code)) => Err(ImportError::BindBuffer(code)),
    }
}

/// A device that a buffer is imported with.
#[derive(Clone, Copy, Debug, PartialEq, Eq, Structural)]
pub enum Importer {
    /// The device that is rendered for.
    Target,
    Other(usize),
}

/// The next device to try, after one that could not import the buffer. `target` tells whether
/// there is a device that is rendered for; `others` counts the other devices.
pub fn next_importer(target: bool, others: usize, failed: Option<Importer>) -> (r: Result<
    Importer,
    ImportError,
>)
    requires
        failed matches Some(Importer::Other(i)) ==> i < others,
    ensures
        r == (match failed {
            None if target => Ok::<Importer, ImportError>(Importer::Target),
            None | Some(Importer::Target) => if others > 0 {
                Ok(Importer::Other(0))
            } else {
                Err(ImportError::DeviceMissing)
            },
            Some(Importer::Other(i)) => if i + 1 < others {
                Ok(Importer::Other((i + 1) as usize))
            } else {
                Err(ImportError::DeviceMissing)
            },
        }),
{
    let next: usize = match failed {
        None => {
            if target {
                return Ok(Importer::Target);
            }
            0
        },
        Some(Importer::Target) => 0,
        Some(Importer::Other(i)) => i + 1,
    };
    if next < others {
        Ok(Importer::Other(next))
    } else {
        Err(ImportError::DeviceMissing)
    }
}

/// The nodes of devices come in the order of the devices.
pub proof fn nodes_keep_their_order(
    first: Seq<Option<u64>>,
    second: Seq<Option<u64>>,
)
    ensures
        render_nodes(first + second) == render_nodes(first) + render_nodes(second),
    decreases second.len(),
{
    let all = first + second;
    if second.len() == 0 {
        assert(all =~= first);
        assert(render_nodes(first) + render_nodes(second) =~= render_nodes(first));
    } else {
        nodes_keep_their_order(first, second.drop_last());
        assert(all.drop_last() =~= first + second.drop_last());
        assert(all.last() == second.last());
        assert(render_nodes(all) =~= render_nodes(first) + render_nodes(second));
    }
}

/// A device has at most the one node.
pub proof fn device_with_a_node_is_listed(device: Option<u64>)
    ensures
        device matches Some(node) ==> render_nodes(seq![device]) == seq![node],
        device is None ==> render_nodes(seq![device]) == Seq::<u64>::empty(),
{
    let one = seq![device];
    assert(one.drop_last() =~= Seq::<Option<u64>>::empty());
    assert(render_nodes(one.drop_last()) =~= Seq::<u64>::empty());
    assert(one.last() == device);
    if let Some(node) = device {
        assert(render_nodes(one) =~= seq![node]);
    }
}

/// A renderer is asked to import a buffer exactly if it takes over images of EGL and a display is
/// bound; that it cannot at all is told first.
pub proof fn import_takes_extension_and_display(
    extensions: Vec<String>,
    has_reader: bool,
    r: Result<(), ImportError>,
)
    requires
        call_ensures(try_import_egl, (&extensions, has_reader), r),
    ensures
        r is Ok <==> has_reader && texts(extensions@).contains("GL_OES_EGL_image"@),
        r matches Err(error) ==> (error is NotManaged <==> texts(extensions@).contains(
            "GL_OES_EGL_image"@,
        )),
        r matches Err(error) ==> error is NotManaged || error is GLExtensionNotSupported,
{
}

/// An import makes the context current, reads the buffer and makes a dmabuf of it, in this order; a
/// step that fails ends it with an error of its own.
pub proof fn import_takes_three_steps(
    first: Result<Option<ImportStep>, ImportError>,
    second: Result<Option<ImportStep>, ImportError>,
    third: Result<Option<ImportStep>, ImportError>,
    step: ImportStep,
    code: u32,
    failed: Result<Option<ImportStep>, ImportError>,
)
    requires
        call_ensures(import_step, (ImportStep::MakeCurrent, Ok::<(), u32>(())), first),
        call_ensures(import_step, (ImportStep::ReadBuffer, Ok::<(), u32>(())), second),
        call_ensures(import_step, (ImportStep::CreateDmabuf, Ok::<(), u32>(())), third),
        call_ensures(import_step, (step, Err::<(), u32>(code)), failed),
    ensures
        first is Ok && first->Ok_0 == Some(ImportStep::ReadBuffer),
        second is Ok && second->Ok_0 == Some(ImportStep::CreateDmabuf),
        third is Ok && third->Ok_0 is None,
        failed is Err,
        step is MakeCurrent <==> failed->Err_0 == ImportError::MakeCurrent(code),
        step is ReadBuffer <==> failed->Err_0 == ImportError::BufferAccess(code),
        step is CreateDmabuf <==> failed->Err_0 == ImportError::BindBuffer(code),
{
}

/// The device that is rendered for is tried first, where there is one, and then all others in their
/// order; if none of them can import the buffer, the device is missing.
pub proof fn importers_are_tried_in_order(
    target: bool,
    others: usize,
    i: usize,
    first: Result<Importer, ImportError>,
    second: Result<Importer, ImportError>,
    next: Result<Importer, ImportError>,
)
    requires
        i < others,
        call_ensures(next_importer, (target, others, None::<Importer>), first),
        call_ensures(next_importer, (target, others, Some(Importer::Target)), second),
        call_ensures(next_importer, (target, others, Some(Importer::Other(i))), next),
    ensures
        target ==> first == Ok::<Importer, ImportError>(Importer::Target),
        !target ==> first == second,
        second is Ok && second->Ok_0 == Importer::Other(0),
        i + 1 < others ==> next is Ok && next->Ok_0 is Other && next->Ok_0->Other_0 == i + 1,
        i + 1 == others ==> next is Err && next->Err_0 is DeviceMissing,
{
}

} // verus!

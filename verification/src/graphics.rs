//! The graphics device: owner of the GPU device, the immediate command
//! context, the swap chain and the back-buffer render target. Every GPU
//! resource is modeled by an opaque tag drawn from a per-device counter, so
//! that contracts can say which handles a call invalidates and that
//! recovery from device loss never leaves a stale handle behind. The GPU
//! calls themselves live outside the library; their result codes come back
//! in as plain values and every decision on them is made here.

use vstd::prelude::*;

use crate::error::FatalError;
use crate::primitives::Color;
use crate::primitives::Rectangle;

verus! {

/// The lowest hardware feature level the device demands.
pub const MIN_FEATURE_LEVEL: u32 = 0xB000;

/// The platform result code that reports a removed device.
pub const ERROR_DEVICE_REMOVED: u32 = 0x887A0005;

/// The platform result code that reports a reset device.
pub const ERROR_DEVICE_RESET: u32 = 0x887A0007;

/// The high bit of a platform result code; set exactly on failure codes.
pub const RESULT_FAILURE_BIT: u32 = 0x80000000;

/// How one swap-chain call ended, judged from its raw result code.
#[derive(Clone, Copy, Debug, PartialEq, Eq, Structural)]
pub enum PresentOutcome {
    /// The call succeeded.
    Presented,
    /// The device was removed; recoverable by full reinitialization.
    DeviceLost,
    /// The device was reset; recoverable by full reinitialization.
    DeviceReset,
    /// Any other failure code: fatal.
    Failed(u32),
}

/// A GPU texture paired with its extent.
#[derive(Clone, Copy, Debug, PartialEq, Eq, Structural)]
pub struct Texture2D {
    pub id: u64,
    pub width: u32,
    pub height: u32,
}

/// A render-target view over a texture, paired with the texture's extent.
#[derive(Clone, Copy, Debug, PartialEq, Eq, Structural)]
pub struct RenderTarget {
    pub id: u64,
    pub width: u32,
    pub height: u32,
}

/// A compiled vertex shader together with its input layout.
#[derive(Clone, Copy, Debug, PartialEq, Eq, Structural)]
pub struct VertexShader {
    pub id: u64,
    pub input_layout: u64,
}

/// A compiled pixel shader.
#[derive(Clone, Copy, Debug, PartialEq, Eq, Structural)]
pub struct PixelShader {
    pub id: u64,
}

/// The primitive topology draws are assembled with.
#[derive(Clone, Copy, Debug, PartialEq, Eq, Structural)]
pub enum PrimitiveType {
    Points,
    Triangles,
}

impl PrimitiveType {
    /// The platform's topology code for this primitive type.
    pub fn topology_code(&self) -> (r: u32)
        ensures
            *self is Points ==> r == 1,
            *self is Triangles ==> r == 4,
    {
        match self {
            PrimitiveType::Points => 1,
            PrimitiveType::Triangles => 4,
        }
    }
}

/// One vertex input element: the semantic's index into the shader's
/// vocabulary, the data format code, and the input slot.
#[derive(Clone, Copy, Debug, PartialEq, Eq, Structural)]
pub struct InputElement {
    pub semantic: u32,
    pub format: u32,
    pub slot: u32,
}

/// The last clear the context performed: which target, and to what color.
#[derive(Clone, Copy, Debug, PartialEq, Eq, Structural)]
pub struct ClearRecord {
    pub target: u64,
    pub color: Color,
}

/// The graphics device's state. `device` and `context` are the tags of the
/// GPU device and its immediate context; `swap_chain` and `back_buffer` are
/// absent until a surface is attached and the buffers are first resized.
/// `next_id` feeds every new resource tag, so a tag below it and nonzero is
/// one this device handed out.
#[derive(Clone, Copy, Debug, PartialEq, Eq, Structural)]
pub struct GraphicsDevice {
    pub device: u64,
    pub context: u64,
    pub swap_chain: Option<u64>,
    pub back_buffer: Option<u64>,
    pub hwnd: u64,
    pub width: u32,
    pub height: u32,
    pub next_id: u64,
    pub bound_vertex_shader: Option<u64>,
    pub bound_pixel_shader: Option<u64>,
    pub primitive: Option<PrimitiveType>,
    pub viewport: Option<Rectangle<u32>>,
    pub scissor: Option<Rectangle<u32>>,
    pub last_clear: Option<ClearRecord>,
}

/// Room the resource counter must have before an operation, so that the
/// operation's handful of fresh tags cannot overflow it.
pub open spec fn id_headroom(s: GraphicsDevice) -> bool {
    s.next_id <= 0xFFFF_FFFF_FFFF_0000u64
}

impl GraphicsDevice {
    /// Well-formed device state: the device and context tags are live ones,
    /// the swap chain and back buffer are live when present, the back
    /// buffer only ever exists over the current swap chain, and a surface
    /// is only attached to a real window handle.
    pub open spec fn wf(self) -> bool {
        &&& self.device != 0
        &&& self.context != 0
        &&& self.device < self.next_id
        &&& self.context < self.next_id
        &&& (self.swap_chain matches Some(s) ==> s != 0 && s < self.next_id)
        &&& (self.back_buffer matches Some(b) ==> b != 0 && b < self.next_id)
        &&& (self.back_buffer is Some ==> self.swap_chain is Some)
        &&& (self.swap_chain is Some ==> self.hwnd != 0)
    }

    /// Whether the device can present: a surface is attached and a back
    /// buffer has been built over it.
    pub open spec fn presenting(self) -> bool {
        self.swap_chain is Some && self.back_buffer is Some
    }
}

/// The device state right after creation: device and context exist, no
/// surface is attached, and the size starts at the given placeholder until
/// the first resize against the real window size.
pub open spec fn new_device_spec(width: u32, height: u32) -> GraphicsDevice {
    GraphicsDevice {
        device: 1,
        context: 2,
        swap_chain: None,
        back_buffer: None,
        hwnd: 0,
        width,
        height,
        next_id: 3,
        bound_vertex_shader: None,
        bound_pixel_shader: None,
        primitive: None,
        viewport: None,
        scissor: None,
        last_clear: None,
    }
}

/// The state after attaching a presentation surface for a window: a fresh
/// swap chain over the stored handle; the back buffer stays absent until
/// the first resize builds it.
pub open spec fn attach_surface_spec(s: GraphicsDevice, hwnd: u64) -> GraphicsDevice {
    GraphicsDevice {
        swap_chain: Some(s.next_id),
        hwnd,
        next_id: (s.next_id + 1) as u64,
        ..s
    }
}

/// The state after resizing the swap-chain buffers: the new size, and a
/// fresh back-buffer render target over buffer zero of the same swap chain.
/// The old back-buffer tag is dead the instant the resize begins.
pub open spec fn resize_spec(s: GraphicsDevice, width: u32, height: u32) -> GraphicsDevice {
    GraphicsDevice {
        width,
        height,
        back_buffer: Some(s.next_id),
        next_id: (s.next_id + 1) as u64,
        ..s
    }
}

/// The state after recovery from device loss: every GPU resource is fresh
/// — device, context, swap chain over the previously known window handle,
/// and a back buffer at the previously known size — and all context-bound
/// state is gone with the old context. Nothing of the old tags survives.
pub open spec fn recover_spec(s: GraphicsDevice) -> GraphicsDevice {
    GraphicsDevice {
        device: s.next_id,
        context: (s.next_id + 1) as u64,
        swap_chain: Some((s.next_id + 2) as u64),
        back_buffer: Some((s.next_id + 3) as u64),
        hwnd: s.hwnd,
        width: s.width,
        height: s.height,
        next_id: (s.next_id + 4) as u64,
        bound_vertex_shader: None,
        bound_pixel_shader: None,
        primitive: None,
        viewport: None,
        scissor: None,
        last_clear: None,
    }
}

/// The state after a present with the given outcome: success leaves the
/// device as it is, device loss and device reset trigger the full recovery,
/// and any other failure changes nothing here — it is fatal to the caller.
pub open spec fn present_spec(s: GraphicsDevice, outcome: PresentOutcome) -> GraphicsDevice {
    match outcome {
        PresentOutcome::Presented => s,
        PresentOutcome::DeviceLost => recover_spec(s),
        PresentOutcome::DeviceReset => recover_spec(s),
        PresentOutcome::Failed(_) => s,
    }
}

/// How a raw swap-chain result code classifies: the two device-loss codes
/// are recoverable, any other code with the failure bit is fatal, and
/// everything else is success.
pub open spec fn classify_spec(hr: u32) -> PresentOutcome {
    if hr == ERROR_DEVICE_REMOVED {
        PresentOutcome::DeviceLost
    } else if hr == ERROR_DEVICE_RESET {
        PresentOutcome::DeviceReset
    } else if hr >= RESULT_FAILURE_BIT {
        PresentOutcome::Failed(hr)
    } else {
        PresentOutcome::Presented
    }
}

/// Classifies a raw swap-chain result code, exactly as `classify_spec`
/// states.
pub fn classify_swap_chain_result(hr: u32) -> (r: PresentOutcome)
    ensures
        r == classify_spec(hr),
{
    if hr == ERROR_DEVICE_REMOVED {
        PresentOutcome::DeviceLost
    } else if hr == ERROR_DEVICE_RESET {
        PresentOutcome::DeviceReset
    } else if hr >= RESULT_FAILURE_BIT {
        PresentOutcome::Failed(hr)
    } else {
        PresentOutcome::Presented
    }
}

/// Whether a hardware feature level satisfies the device's minimum.
pub fn feature_level_sufficient(level: u32) -> (r: bool)
    ensures
        r <==> level >= MIN_FEATURE_LEVEL,
{
    level >= MIN_FEATURE_LEVEL
}

/// Judges a reported feature level: a device below the minimum is an
/// incompatible-hardware error, which is fatal and not retryable.
pub fn check_feature_level(level: u32) -> (r: Result<(), FatalError>)
    ensures
        r is Ok <==> level >= MIN_FEATURE_LEVEL,
        level < MIN_FEATURE_LEVEL ==> r == Result::<(), FatalError>::Err(
            FatalError::IncompatibleFeatureLevel,
        ),
{
    if level >= MIN_FEATURE_LEVEL {
        Ok(())
    } else {
        Err(FatalError::IncompatibleFeatureLevel)
    }
}

impl Default for GraphicsDevice {
    /// A fresh device with the default placeholder size, to be replaced by
    /// the real window size on the first resize.
    fn default() -> (d: GraphicsDevice)
        ensures
            d == new_device_spec(800, 600),
    {
        GraphicsDevice::new(800, 600)
    }
}

impl GraphicsDevice {
    /// A freshly created device and immediate context, in the DeviceReady
    /// state: no surface, no back buffer, a placeholder size to be replaced
    /// on the first resize.
    pub fn new(width: u32, height: u32) -> (d: GraphicsDevice)
        ensures
            d == new_device_spec(width, height),
            d.wf(),
            !d.presenting(),
            id_headroom(d),
    {
        GraphicsDevice {
            device: 1,
            context: 2,
            swap_chain: None,
            back_buffer: None,
            hwnd: 0,
            width,
            height,
            next_id: 3,
            bound_vertex_shader: None,
            bound_pixel_shader: None,
            primitive: None,
            viewport: None,
            scissor: None,
            last_clear: None,
        }
    }

    /// Attaches the presentation surface for a window: creates the swap
    /// chain over the window handle and disables the platform's own
    /// fullscreen transition exactly once for this surface. The back buffer
    /// is deferred to the first resize.
    pub fn attach_surface(&mut self, hwnd: u64)
        requires
            old(self).wf(),
            id_headroom(*old(self)),
            hwnd != 0,
            old(self).swap_chain is None,
        ensures
            *final(self) == attach_surface_spec(*old(self), hwnd),
            final(self).wf(),
            final(self).swap_chain is Some,
            final(self).back_buffer == old(self).back_buffer,
    {
        self.swap_chain = Some(self.next_id);
        self.hwnd = hwnd;
        self.next_id = self.next_id + 1;
    }

    /// Resizes the swap-chain buffers to the new size and rebuilds the
    /// back-buffer render target over buffer zero. Every handle to the old
    /// back buffer is invalid from here on: the fresh tag differs from
    /// every tag this device handed out before, the old back buffer's
    /// included. Safe to call with the current size.
    pub fn resize(&mut self, width: u32, height: u32)
        requires
            old(self).wf(),
            id_headroom(*old(self)),
            old(self).swap_chain is Some,
        ensures
            *final(self) == resize_spec(*old(self), width, height),
            final(self).wf(),
            final(self).presenting(),
            id_headroom(*old(self)) ==> final(self).next_id <= old(self).next_id + 1,
            final(self).back_buffer matches Some(b) && (old(self).back_buffer matches Some(ob)
                ==> b != ob),
    {
        self.width = width;
        self.height = height;
        self.back_buffer = Some(self.next_id);
        self.next_id = self.next_id + 1;
    }

    /// Applies the device-loss protocol to a swap-chain result: success and
    /// recoverable outcomes return Ok — after a device loss or reset the
    /// whole device is reinitialized in place, with the same window handle
    /// and size but not one old resource tag surviving — and any other
    /// failure is returned as the fatal swap-chain error with its code.
    pub fn handle_swap_chain_result(&mut self, outcome: PresentOutcome) -> (r: Result<
        (),
        FatalError,
    >)
        requires
            old(self).wf(),
            id_headroom(*old(self)),
            old(self).presenting(),
        ensures
            *final(self) == present_spec(*old(self), outcome),
            final(self).wf(),
            final(self).presenting(),
            final(self).width == old(self).width && final(self).height == old(self).height,
            final(self).hwnd == old(self).hwnd,
            r is Ok <==> !(outcome is Failed),
            outcome matches PresentOutcome::Failed(hr) ==> r == Result::<(), FatalError>::Err(
                FatalError::SwapChainFailed(hr),
            ),
    {
        match outcome {
            PresentOutcome::Presented => Ok(()),
            PresentOutcome::DeviceLost | PresentOutcome::DeviceReset => {
                let base: u64 = self.next_id;
                self.device = base;
                self.context = base + 1;
                self.swap_chain = Some(base + 2);
                self.back_buffer = Some(base + 3);
                self.next_id = base + 4;
                self.bound_vertex_shader = None;
                self.bound_pixel_shader = None;
                self.primitive = None;
                self.viewport = None;
                self.scissor = None;
                self.last_clear = None;
                Ok(())
            },
            PresentOutcome::Failed(hr) => Err(FatalError::SwapChainFailed(hr)),
        }
    }

    /// Presents the back buffer with the given platform outcome: exactly
    /// `handle_swap_chain_result`, since the vertical-sync wait itself has
    /// no observable effect here.
    pub fn present(&mut self, outcome: PresentOutcome) -> (r: Result<(), FatalError>)
        requires
            old(self).wf(),
            id_headroom(*old(self)),
            old(self).presenting(),
        ensures
            *final(self) == present_spec(*old(self), outcome),
            final(self).wf(),
            final(self).presenting(),
            id_headroom(*old(self)) ==> final(self).next_id <= old(self).next_id + 4,
            final(self).width == old(self).width && final(self).height == old(self).height,
            final(self).hwnd == old(self).hwnd,
            r is Ok <==> !(outcome is Failed),
            outcome matches PresentOutcome::Failed(hr) ==> r == Result::<(), FatalError>::Err(
                FatalError::SwapChainFailed(hr),
            ),
            (outcome is DeviceLost || outcome is DeviceReset) ==> {
                &&& final(self).back_buffer matches Some(b) && (old(self).back_buffer matches Some(
                    ob,
                ) ==> b != ob)
                &&& final(self).device != old(self).device
                &&& final(self).swap_chain != old(self).swap_chain
            },
    {
        self.handle_swap_chain_result(outcome)
    }

    /// The current back-buffer render target.
    pub fn back_buffer(&self) -> (r: RenderTarget)
        requires
            self.back_buffer is Some,
        ensures
            r == (RenderTarget {
                id: self.back_buffer->0,
                width: self.width,
                height: self.height,
            }),
    {
        match self.back_buffer {
            Some(id) => RenderTarget { id, width: self.width, height: self.height },
            None => RenderTarget { id: 0, width: self.width, height: self.height },
        }
    }

    /// Creates a render-target view over a texture, with a fresh tag and
    /// the texture's extent.
    pub fn create_render_target(&mut self, texture: &Texture2D) -> (r: RenderTarget)
        requires
            old(self).wf(),
            id_headroom(*old(self)),
        ensures
            r == (RenderTarget {
                id: old(self).next_id,
                width: texture.width,
                height: texture.height,
            }),
            *final(self) == (GraphicsDevice {
                next_id: (old(self).next_id + 1) as u64,
                ..*old(self)
            }),
            final(self).wf(),
    {
        let id: u64 = self.next_id;
        self.next_id = self.next_id + 1;
        RenderTarget { id, width: texture.width, height: texture.height }
    }

    /// Clears a render target to a color. The color reaches the GPU as
    /// channel values normalized from eight bits to the unit interval; the
    /// state here records the target and the color as given. Only a live
    /// target of this device may be cleared.
    pub fn clear(&mut self, target: &RenderTarget, color: Color)
        requires
            old(self).wf(),
            target.id != 0,
            target.id < old(self).next_id,
        ensures
            *final(self) == (GraphicsDevice {
                last_clear: Some(ClearRecord { target: target.id, color }),
                ..*old(self)
            }),
            final(self).wf(),
    {
        self.last_clear = Some(ClearRecord { target: target.id, color });
    }

    /// Creates a vertex shader from compiled byte code, with its input
    /// layout built from the given input elements; both get fresh tags.
    pub fn create_vertex_shader(&mut self, byte_code: &Vec<u8>, input_elements: &Vec<
        InputElement,
    >) -> (r: VertexShader)
        requires
            old(self).wf(),
            id_headroom(*old(self)),
        ensures
            r == (VertexShader { id: old(self).next_id, input_layout: (old(self).next_id + 1) as u64 }),
            *final(self) == (GraphicsDevice {
                next_id: (old(self).next_id + 2) as u64,
                ..*old(self)
            }),
            final(self).wf(),
    {
        let id: u64 = self.next_id;
        let input_layout: u64 = self.next_id + 1;
        self.next_id = self.next_id + 2;
        VertexShader { id, input_layout }
    }

    /// Creates a pixel shader from compiled byte code, with a fresh tag.
    pub fn create_pixel_shader(&mut self, byte_code: &Vec<u8>) -> (r: PixelShader)
        requires
            old(self).wf(),
            id_headroom(*old(self)),
        ensures
            r == (PixelShader { id: old(self).next_id }),
            *final(self) == (GraphicsDevice {
                next_id: (old(self).next_id + 1) as u64,
                ..*old(self)
            }),
            final(self).wf(),
    {
        let id: u64 = self.next_id;
        self.next_id = self.next_id + 1;
        PixelShader { id }
    }

    /// Binds a vertex shader and its input layout to the context.
    pub fn set_vertex_shader(&mut self, shader: &VertexShader)
        ensures
            *final(self) == (GraphicsDevice {
                bound_vertex_shader: Some(shader.id),
                ..*old(self)
            }),
    {
        self.bound_vertex_shader = Some(shader.id);
    }

    /// Binds a pixel shader to the context.
    pub fn set_pixel_shader(&mut self, shader: &PixelShader)
        ensures
            *final(self) == (GraphicsDevice { bound_pixel_shader: Some(shader.id), ..*old(self) }),
    {
        self.bound_pixel_shader = Some(shader.id);
    }

    /// Selects the primitive topology draws are assembled with.
    pub fn set_primitive_type(&mut self, primitive_type: PrimitiveType)
        ensures
            *final(self) == (GraphicsDevice { primitive: Some(primitive_type), ..*old(self) }),
    {
        self.primitive = Some(primitive_type);
    }

    /// Sets the viewport rectangle.
    pub fn set_viewport(&mut self, viewport: &Rectangle<u32>)
        ensures
            *final(self) == (GraphicsDevice { viewport: Some(*viewport), ..*old(self) }),
    {
        self.viewport = Some(*viewport);
    }

    /// Sets the scissor rectangle. The platform takes it as edges, so the
    /// right and bottom edges — left plus width and top plus height — must
    /// fit the platform's signed coordinate range.
    pub fn set_scissor_rect(&mut self, rectangle: &Rectangle<u32>)
        requires
            rectangle.left + rectangle.width <= i32::MAX,
            rectangle.top + rectangle.height <= i32::MAX,
        ensures
            *final(self) == (GraphicsDevice { scissor: Some(*rectangle), ..*old(self) }),
    {
        self.scissor = Some(*rectangle);
    }

    /// The right and bottom edges of a scissor rectangle, as the platform
    /// call takes them.
    pub fn scissor_edges(rectangle: &Rectangle<u32>) -> (r: (u32, u32))
        requires
            rectangle.left + rectangle.width <= u32::MAX,
            rectangle.top + rectangle.height <= u32::MAX,
        ensures
            r.0 == rectangle.left + rectangle.width,
            r.1 == rectangle.top + rectangle.height,
    {
        (rectangle.left + rectangle.width, rectangle.top + rectangle.height)
    }
}

/// Recovery is invisible but for fresh resources: after a device loss on
/// present, the device presents again from the same size and window, every
/// resource tag is new — the back buffer's identity in particular differs
/// from the pre-loss one — and the immediately following present succeeds.
pub proof fn lemma_present_recovers_after_device_loss(s: GraphicsDevice)
    requires
        s.wf(),
        id_headroom(s),
        s.presenting(),
    ensures
        ({
            let recovered = present_spec(s, PresentOutcome::DeviceLost);
            &&& recovered.wf()
            &&& recovered.presenting()
            &&& id_headroom(s) ==> recovered.width == s.width && recovered.height == s.height
            &&& recovered.back_buffer matches Some(b) && (s.back_buffer matches Some(ob) ==> b
                != ob)
            &&& recovered.device != s.device
            &&& present_spec(recovered, PresentOutcome::Presented) == recovered
        }),
{
}

/// A resize to the current size is as safe as any other: afterwards the
/// device is presenting, the cleared back buffer is a live target, and a
/// present with a success outcome changes nothing and returns no error.
pub proof fn lemma_resize_then_clear_present_safe(s: GraphicsDevice, width: u32, height: u32)
    requires
        s.wf(),
        s.next_id < 0xFFFF_FFFF_FFFF_0000u64,
        s.swap_chain is Some,
    ensures
        ({
            let resized = resize_spec(s, width, height);
            &&& resized.wf()
            &&& resized.presenting()
            &&& resized.back_buffer matches Some(b) && b != 0 && b < resized.next_id
            &&& id_headroom(resized)
            &&& present_spec(resized, PresentOutcome::Presented) == resized
        }),
{
}

} // verus!

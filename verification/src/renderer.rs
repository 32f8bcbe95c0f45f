//! The deferred pipeline: a geometry pass into an offscreen buffer, then a
//! light pass that adds up the contribution of each light.

use vstd::prelude::*;
use crate::camera::Camera;
use crate::command::Command;
use crate::light::{AmbientLight, DirectionalLight, LightType, PointLight, Shadow, SpotLight};
use crate::math::{bias_matrix, transparent_black, vec4, Mat4, Vec4, ZERO_BITS};
use crate::objects::FullScreen;
use crate::pass::Pass;
use crate::program;
use crate::program::{Program, Uniform, UniformValue};
use crate::rendertarget;
use crate::rendertarget::{Allocation, ColorRendertarget, RendertargetView, Request};
use crate::state::PassState;
use crate::texture;
use crate::texture::Texture;

verus! {

/// `std::io::Error`, declared so that an error can carry one. Nothing is
/// claimed of it: the library never looks inside, and only hands it on.
#[verifier::external_type_specification]
#[verifier::external_body]
pub struct ExIoError(std::io::Error);

/// Everything that can go wrong in the pipeline, by the resource that failed.
#[derive(Debug)]
pub enum Error {
    IO(std::io::Error),
    Program(program::Error),
    Rendertarget(rendertarget::Error),
    Texture(texture::Error),
    LightPassRendertargetNotAvailable { message: String },
}

impl From<std::io::Error> for Error {
    fn from(other: std::io::Error) -> (e: Self) {
        Error::IO(other)
    }
}

impl vstd::std_specs::convert::FromSpecImpl<std::io::Error> for Error {
    open spec fn obeys_from_spec() -> bool {
        true
    }

    open spec fn from_spec(other: std::io::Error) -> Self {
        Error::IO(other)
    }
}

impl From<program::Error> for Error {
    fn from(other: program::Error) -> (e: Self) {
        Error::Program(other)
    }
}

impl vstd::std_specs::convert::FromSpecImpl<program::Error> for Error {
    open spec fn obeys_from_spec() -> bool {
        true
    }

    open spec fn from_spec(other: program::Error) -> Self {
        Error::Program(other)
    }
}

impl From<rendertarget::Error> for Error {
    fn from(other: rendertarget::Error) -> (e: Self) {
        Error::Rendertarget(other)
    }
}

impl vstd::std_specs::convert::FromSpecImpl<rendertarget::Error> for Error {
    open spec fn obeys_from_spec() -> bool {
        true
    }

    open spec fn from_spec(other: rendertarget::Error) -> Self {
        Error::Rendertarget(other)
    }
}

impl From<texture::Error> for Error {
    fn from(other: texture::Error) -> (e: Self) {
        Error::Texture(other)
    }
}

impl vstd::std_specs::convert::FromSpecImpl<texture::Error> for Error {
    open spec fn obeys_from_spec() -> bool {
        true
    }

    open spec fn from_spec(other: texture::Error) -> Self {
        Error::Texture(other)
    }
}

/// The texture unit on which a shadow map is bound.
pub const SHADOW_UNIT: u32 = 5;

/// The number of colour attachments of the geometry buffer: colour,
/// position, normal and surface parameters.
pub const GEOMETRY_TARGETS: usize = 4;

/// The commands that hand a light's shadow to the light-pass program:
/// the transform from world space to the shadow map's texture space, and
/// the shadow map itself on its texture unit. Without a shadow, none.
pub open spec fn shadow_commands(program: Program, shadow: Option<Shadow>) -> Seq<Command> {
    match shadow {
        None => Seq::empty(),
        Some(s) => seq![
            program.set(
                Uniform::ShadowMvp,
                UniformValue::Product(bias_matrix(), s.camera.projection, s.camera.view),
            ),
            Command::BindTexture { texture: s.map.id, unit: SHADOW_UNIT },
            program.set(Uniform::ShadowMap, UniformValue::Int(5)),
        ],
    }
}

/// The commands that shine an ambient light.
pub open spec fn ambient_commands(program: Program, light: AmbientLight) -> Seq<Command> {
    seq![
        program.set(Uniform::LightType, UniformValue::Int(LightType::Ambient.spec_discriminant())),
        program.set(Uniform::AmbientColor, UniformValue::Vec3(light.base.color)),
        program.set(Uniform::AmbientIntensity, UniformValue::Float(light.base.intensity)),
        Command::DrawFullScreen { program: program.id },
    ]
}

/// The commands that shine a directional light: its shadow, if it has
/// one, then the light itself.
pub open spec fn directional_commands(program: Program, light: DirectionalLight) -> Seq<Command> {
    shadow_commands(program, light.shadow) + seq![
        program.set(
            Uniform::LightType,
            UniformValue::Int(LightType::Directional.spec_discriminant()),
        ),
        program.set(Uniform::DirectionalDirection, UniformValue::Vec3(light.direction)),
        program.set(Uniform::DirectionalColor, UniformValue::Vec3(light.base.color)),
        program.set(Uniform::DirectionalIntensity, UniformValue::Float(light.base.intensity)),
        Command::DrawFullScreen { program: program.id },
    ]
}

/// The commands that shine a point light.
pub open spec fn point_commands(program: Program, light: PointLight) -> Seq<Command> {
    seq![
        program.set(Uniform::LightType, UniformValue::Int(LightType::Point.spec_discriminant())),
        program.set(Uniform::PointPosition, UniformValue::Vec3(light.position)),
        program.set(Uniform::PointColor, UniformValue::Vec3(light.base.color)),
        program.set(Uniform::PointIntensity, UniformValue::Float(light.base.intensity)),
        program.set(
            Uniform::PointAttenuationConstant,
            UniformValue::Float(light.attenuation.constant),
        ),
        program.set(Uniform::PointAttenuationLinear, UniformValue::Float(light.attenuation.linear)),
        program.set(Uniform::PointAttenuationExp, UniformValue::Float(light.attenuation.exp)),
        Command::DrawFullScreen { program: program.id },
    ]
}

/// The commands that shine a spot light: its shadow, if it has one, then
/// the light itself. The cutoff goes up as the cosine of the angle.
pub open spec fn spot_commands(program: Program, light: SpotLight) -> Seq<Command> {
    shadow_commands(program, light.shadow) + seq![
        program.set(Uniform::LightType, UniformValue::Int(LightType::Spot.spec_discriminant())),
        program.set(Uniform::SpotPosition, UniformValue::Vec3(light.position)),
        program.set(Uniform::SpotDirection, UniformValue::Vec3(light.direction)),
        program.set(Uniform::SpotColor, UniformValue::Vec3(light.base.color)),
        program.set(Uniform::SpotIntensity, UniformValue::Float(light.base.intensity)),
        program.set(
            Uniform::SpotAttenuationConstant,
            UniformValue::Float(light.attenuation.constant),
        ),
        program.set(Uniform::SpotAttenuationLinear, UniformValue::Float(light.attenuation.linear)),
        program.set(Uniform::SpotAttenuationExp, UniformValue::Float(light.attenuation.exp)),
        program.set(Uniform::SpotCutoff, UniformValue::Cosine(light.cutoff)),
        Command::DrawFullScreen { program: program.id },
    ]
}

/// True of the commands that hand a shadow to the light-pass program: a
/// texture bound to the shadow unit, and the two shadow uniforms.
pub open spec fn touches_shadow(command: Command) -> bool {
    match command {
        Command::BindTexture { unit, .. } => unit == SHADOW_UNIT,
        Command::SetUniform { uniform, .. } => uniform == Uniform::ShadowMap || uniform
            == Uniform::ShadowMvp,
        _ => false,
    }
}

/// True of the commands that leave the bound target, its contents and the
/// fixed-function state alone: uniforms, texture bindings and draws.
pub open spec fn keeps_target_and_state(command: Command) -> bool {
    command is SetUniform || command is BindTexture || command is DrawFullScreen
}

/// A light without a shadow never sets a shadow uniform and never binds a
/// texture to the shadow unit. Ambient and point lights have no shadow.
pub proof fn lemma_no_shadow_no_shadow_commands(
    program: Program,
    ambient: AmbientLight,
    directional: DirectionalLight,
    point: PointLight,
    spot: SpotLight,
)
    ensures
        forall|i: int|
            0 <= i < ambient_commands(program, ambient).len() ==> !touches_shadow(
                #[trigger] ambient_commands(program, ambient)[i],
            ),
        forall|i: int|
            0 <= i < point_commands(program, point).len() ==> !touches_shadow(
                #[trigger] point_commands(program, point)[i],
            ),
        directional.shadow is None ==> forall|i: int|
            0 <= i < directional_commands(program, directional).len() ==> !touches_shadow(
                #[trigger] directional_commands(program, directional)[i],
            ),
        spot.shadow is None ==> forall|i: int|
            0 <= i < spot_commands(program, spot).len() ==> !touches_shadow(
                #[trigger] spot_commands(program, spot)[i],
            ),
{
}

/// A light with a shadow begins with the shadow transform, the shadow map
/// on the shadow unit and the shadow sampler, in this order.
pub proof fn lemma_shadow_comes_first(program: Program, directional: DirectionalLight, spot: SpotLight)
    ensures
        directional.shadow is Some ==> directional_commands(program, directional).subrange(0, 3)
            == shadow_commands(program, directional.shadow),
        spot.shadow is Some ==> spot_commands(program, spot).subrange(0, 3) == shadow_commands(
            program,
            spot.shadow,
        ),
{
    if directional.shadow is Some {
        assert(directional_commands(program, directional).subrange(0, 3) =~= shadow_commands(
            program,
            directional.shadow,
        ));
    }
    if spot.shadow is Some {
        assert(spot_commands(program, spot).subrange(0, 3) =~= shadow_commands(
            program,
            spot.shadow,
        ));
    }
}

/// Each kind of light announces itself by its own number, right after
/// its shadow commands: ambient 0, directional 1, point 2, spot 3.
pub proof fn lemma_light_type_is_announced(
    program: Program,
    ambient: AmbientLight,
    directional: DirectionalLight,
    point: PointLight,
    spot: SpotLight,
)
    ensures
        ambient_commands(program, ambient)[0] == program.set(
            Uniform::LightType,
            UniformValue::Int(0),
        ),
        directional_commands(program, directional)[shadow_commands(
            program,
            directional.shadow,
        ).len() as int] == program.set(Uniform::LightType, UniformValue::Int(1)),
        point_commands(program, point)[0] == program.set(Uniform::LightType, UniformValue::Int(2)),
        spot_commands(program, spot)[shadow_commands(program, spot.shadow).len() as int]
            == program.set(Uniform::LightType, UniformValue::Int(3)),
{
}

/// Shining a light leaves the bound target, what it holds and the
/// fixed-function state as the light pass set them: each command sets a
/// uniform, binds a texture or draws, and the one draw comes last.
pub proof fn lemma_shine_keeps_accumulation(
    program: Program,
    ambient: AmbientLight,
    directional: DirectionalLight,
    point: PointLight,
    spot: SpotLight,
)
    ensures
        forall|i: int|
            0 <= i < ambient_commands(program, ambient).len() ==> keeps_target_and_state(
                #[trigger] ambient_commands(program, ambient)[i],
            ),
        forall|i: int|
            0 <= i < directional_commands(program, directional).len() ==> keeps_target_and_state(
                #[trigger] directional_commands(program, directional)[i],
            ),
        forall|i: int|
            0 <= i < point_commands(program, point).len() ==> keeps_target_and_state(
                #[trigger] point_commands(program, point)[i],
            ),
        forall|i: int|
            0 <= i < spot_commands(program, spot).len() ==> keeps_target_and_state(
                #[trigger] spot_commands(program, spot)[i],
            ),
        ambient_commands(program, ambient).last() == (Command::DrawFullScreen {
            program: program.id,
        }),
        directional_commands(program, directional).last() == (Command::DrawFullScreen {
            program: program.id,
        }),
        point_commands(program, point).last() == (Command::DrawFullScreen { program: program.id }),
        spot_commands(program, spot).last() == (Command::DrawFullScreen { program: program.id }),
{
}

/// The mathematical content of a pipeline.
pub ghost struct PipelineView {
    pub program: Program,
    pub screen: RendertargetView,
    pub geometry: RendertargetView,
    pub background_color: Vec4,
}

impl PipelineView {
    /// The geometry buffer has its four colour attachments and its depth
    /// attachment, the screen target its one colour attachment and its
    /// depth attachment, and each attachment has the size of its target.
    pub open spec fn wf(self) -> bool {
        &&& self.geometry.complete(self.geometry.width, self.geometry.height, GEOMETRY_TARGETS)
        &&& self.screen.complete(self.screen.width, self.screen.height, 1)
    }

    /// Both targets are `width` by `height`.
    pub open spec fn sized(self, width: usize, height: usize) -> bool {
        &&& self.screen.width == width
        &&& self.screen.height == height
        &&& self.geometry.width == width
        &&& self.geometry.height == height
    }

    /// The depth attachment of the geometry buffer.
    pub open spec fn geometry_depth(self) -> Texture {
        self.geometry.depth_target->Some_0
    }

    /// The request for a geometry buffer of the given size.
    pub open spec fn geometry_request(width: usize, height: usize) -> Request {
        Request { width, height, no_targets: GEOMETRY_TARGETS }
    }

    /// The request for a screen target of the given size.
    pub open spec fn screen_request(width: usize, height: usize) -> Request {
        Request { width, height, no_targets: 1 }
    }

    /// The pipeline after a resize to `width` by `height` that the host
    /// answered with `answer`. The screen target gets the new size in any
    /// case; the geometry buffer is replaced if the host could allocate
    /// the new one, and stays as it was if not.
    pub open spec fn resized(
        self,
        width: usize,
        height: usize,
        answer: Result<Allocation, rendertarget::Error>,
    ) -> PipelineView {
        PipelineView {
            program: self.program,
            screen: self.screen.with_size(width, height),
            geometry: match Self::geometry_request(width, height).outcome(answer) {
                Ok(geometry) => geometry,
                Err(_) => self.geometry,
            },
            background_color: self.background_color,
        }
    }

    /// What a resize returns when the host answered with `answer`.
    pub open spec fn resize_result(
        width: usize,
        height: usize,
        answer: Result<Allocation, rendertarget::Error>,
    ) -> Result<(), Error> {
        match Self::geometry_request(width, height).outcome(answer) {
            Ok(_) => Ok(()),
            Err(e) => Err(Error::Rendertarget(e)),
        }
    }

    /// Resizing a pipeline to the size that it already has changes
    /// nothing that a later pass can tell: the program, the screen target
    /// and the background colour stay as they are, and the new geometry
    /// buffer has the shape of the old one. If the host hands back the
    /// names of the old buffer, the pipeline is the same as before.
    pub proof fn lemma_resize_to_same_size(self, width: usize, height: usize, allocation: Allocation)
        requires
            self.wf(),
            self.sized(width, height),
            allocation.targets@.len() == GEOMETRY_TARGETS,
        ensures
            Self::resize_result(width, height, Ok(allocation)) == Ok::<(), Error>(()),
            self.resized(width, height, Ok(allocation)).program == self.program,
            self.resized(width, height, Ok(allocation)).screen == self.screen,
            self.resized(width, height, Ok(allocation)).background_color == self.background_color,
            self.resized(width, height, Ok(allocation)).geometry.complete(
                width,
                height,
                GEOMETRY_TARGETS,
            ),
            self.geometry.complete(width, height, GEOMETRY_TARGETS),
            self.resized(width, height, Ok(allocation)).wf(),
            self.resized(width, height, Ok(allocation)).sized(width, height),
            self.geometry == RendertargetView::assembled(
                width,
                height,
                allocation.framebuffer,
                allocation.targets@,
                allocation.depth_target,
            ) ==> self.resized(width, height, Ok(allocation)) == self,
    {
        assert(self.screen.with_size(width, height).targets =~= self.screen.targets);
        assert(self.screen.with_size(width, height) == self.screen);
    }

    /// A resize that the host cannot serve gives the screen target its new
    /// size and keeps the geometry buffer, and hands the host's failure on.
    pub proof fn lemma_failed_resize(self, width: usize, height: usize, e: rendertarget::Error)
        ensures
            Self::resize_result(width, height, Err(e)) == Err::<(), Error>(Error::Rendertarget(e)),
            self.resized(width, height, Err(e)).geometry == self.geometry,
            self.resized(width, height, Err(e)).screen.width == width,
            self.resized(width, height, Err(e)).screen.height == height,
    {
    }

    /// After a resize that the host served, the screen target and every
    /// attachment of the geometry buffer have the new size.
    pub proof fn lemma_resize_sets_every_size(
        self,
        width: usize,
        height: usize,
        allocation: Allocation,
    )
        requires
            self.wf(),
            allocation.targets@.len() == GEOMETRY_TARGETS,
        ensures
            self.resized(width, height, Ok(allocation)).sized(width, height),
            self.resized(width, height, Ok(allocation)).wf(),
            forall|i: int|
                0 <= i < GEOMETRY_TARGETS ==> {
                    &&& (#[trigger] self.resized(
                        width,
                        height,
                        Ok(allocation),
                    ).geometry.targets[i]).width == width
                    &&& self.resized(width, height, Ok(allocation)).geometry.targets[i].height
                        == height
                },
            self.resized(width, height, Ok(allocation)).geometry_depth().width == width,
            self.resized(width, height, Ok(allocation)).geometry_depth().height == height,
    {
    }

    /// The commands that begin the geometry pass: the geometry buffer is
    /// bound and cleared to the background colour, and the state is set
    /// for opaque rasterization.
    pub open spec fn geometry_pass(self) -> Seq<Command> {
        seq![
            Command::BindRendertarget {
                framebuffer: self.geometry.id,
                width: self.geometry.width,
                height: self.geometry.height,
            },
            Command::Clear { color: self.background_color },
        ] + PassState::opaque().commands()
    }

    /// The commands that begin the light pass into `target`: the target is
    /// bound and cleared to transparent black, the state is set for
    /// accumulation, the five channels of the geometry buffer are bound to
    /// the texture units 0 to 4 and named to the program, and the position
    /// of the eye is set.
    pub open spec fn light_pass(self, camera: Camera, target: RendertargetView) -> Seq<Command> {
        seq![
            Command::BindRendertarget {
                framebuffer: target.id,
                width: target.width,
                height: target.height,
            },
            Command::Clear { color: transparent_black() },
        ] + PassState::accumulation().commands() + seq![
            Command::BindTexture { texture: self.geometry.targets[0].id, unit: 0 },
            self.program.set(Uniform::ColorMap, UniformValue::Int(0)),
            Command::BindTexture { texture: self.geometry.targets[1].id, unit: 1 },
            self.program.set(Uniform::PositionMap, UniformValue::Int(1)),
            Command::BindTexture { texture: self.geometry.targets[2].id, unit: 2 },
            self.program.set(Uniform::NormalMap, UniformValue::Int(2)),
            Command::BindTexture { texture: self.geometry.targets[3].id, unit: 3 },
            self.program.set(Uniform::SurfaceParametersMap, UniformValue::Int(3)),
            Command::BindTexture { texture: self.geometry_depth().id, unit: 4 },
            self.program.set(Uniform::DepthMap, UniformValue::Int(4)),
            self.program.set(Uniform::EyePosition, UniformValue::Vec3(camera.position)),
        ]
    }
}

/// A deferred pipeline: the light-pass program, the screen target, the
/// geometry buffer and the full-screen quad.
#[derive(Debug)]
pub struct DeferredPipeline {
    light_pass_program: Program,
    rendertarget: ColorRendertarget,
    geometry_pass_rendertarget: ColorRendertarget,
    full_screen: FullScreen,
    pub background_color: Vec4,
}

impl View for DeferredPipeline {
    type V = PipelineView;

    closed spec fn view(&self) -> PipelineView {
        PipelineView {
            program: self.light_pass_program,
            screen: self.rendertarget@,
            geometry: self.geometry_pass_rendertarget@,
            background_color: self.background_color,
        }
    }
}

/// A pipeline under construction that waits for the light-pass program.
#[derive(Debug)]
pub struct AwaitingProgram {
    screen_width: usize,
    screen_height: usize,
    background_color: Vec4,
}

/// A pipeline under construction that waits for the screen target.
#[derive(Debug)]
pub struct AwaitingScreen {
    screen_width: usize,
    screen_height: usize,
    background_color: Vec4,
    program: Program,
}

/// A pipeline under construction that waits for the geometry buffer.
#[derive(Debug)]
pub struct AwaitingGeometry {
    screen_width: usize,
    screen_height: usize,
    background_color: Vec4,
    program: Program,
    screen: ColorRendertarget,
}

impl AwaitingProgram {
    pub closed spec fn screen_width(&self) -> usize {
        self.screen_width
    }

    pub closed spec fn screen_height(&self) -> usize {
        self.screen_height
    }

    pub closed spec fn background_color(&self) -> Vec4 {
        self.background_color
    }

    /// Takes the host's answer to the request for the light-pass program.
    /// A failure ends the construction with that failure, unchanged.
    pub fn compiled(self, answer: Result<Program, Error>) -> (r: Result<AwaitingScreen, Error>)
        ensures
            match answer {
                Ok(program) => r matches Ok(next) && next.program() == program
                    && next.screen_width() == self.screen_width() && next.screen_height()
                    == self.screen_height() && next.background_color() == self.background_color(),
                Err(e) => r == Err::<AwaitingScreen, Error>(e),
            },
    {
        match answer {
            Ok(program) => Ok(
                AwaitingScreen {
                    screen_width: self.screen_width,
                    screen_height: self.screen_height,
                    background_color: self.background_color,
                    program,
                },
            ),
            Err(e) => Err(e),
        }
    }
}

impl AwaitingScreen {
    pub closed spec fn screen_width(&self) -> usize {
        self.screen_width
    }

    pub closed spec fn screen_height(&self) -> usize {
        self.screen_height
    }

    pub closed spec fn background_color(&self) -> Vec4 {
        self.background_color
    }

    pub closed spec fn program(&self) -> Program {
        self.program
    }

    /// What the host is to allocate next: the screen target.
    pub fn request(&self) -> (request: Request)
        ensures
            request == PipelineView::screen_request(self.screen_width(), self.screen_height()),
    {
        Request::new(self.screen_width, self.screen_height, 1)
    }

    /// Takes the host's answer to the request for the screen target. A
    /// failure ends the construction with a render-target error.
    pub fn allocated(self, answer: Result<Allocation, rendertarget::Error>) -> (r: Result<
        AwaitingGeometry,
        Error,
    >)
        ensures
            match PipelineView::screen_request(self.screen_width(), self.screen_height()).outcome(
                answer,
            ) {
                Ok(screen) => r matches Ok(next) && next.screen() == screen && next.wf()
                    && next.program() == self.program() && next.screen_width()
                    == self.screen_width() && next.screen_height() == self.screen_height()
                    && next.background_color() == self.background_color(),
                Err(e) => r == Err::<AwaitingGeometry, Error>(Error::Rendertarget(e)),
            },
    {
        match self.request().fulfil(answer) {
            Ok(screen) => Ok(
                AwaitingGeometry {
                    screen_width: self.screen_width,
                    screen_height: self.screen_height,
                    background_color: self.background_color,
                    program: self.program,
                    screen,
                },
            ),
            Err(e) => Err(Error::Rendertarget(e)),
        }
    }
}

impl AwaitingGeometry {
    pub closed spec fn screen_width(&self) -> usize {
        self.screen_width
    }

    pub closed spec fn screen_height(&self) -> usize {
        self.screen_height
    }

    pub closed spec fn background_color(&self) -> Vec4 {
        self.background_color
    }

    pub closed spec fn program(&self) -> Program {
        self.program
    }

    pub closed spec fn screen(&self) -> RendertargetView {
        self.screen@
    }

    /// The screen target is complete, at the size that was asked for.
    pub open spec fn wf(&self) -> bool {
        self.screen().complete(self.screen_width(), self.screen_height(), 1)
    }

    /// What the host is to allocate next: the geometry buffer.
    pub fn request(&self) -> (request: Request)
        ensures
            request == PipelineView::geometry_request(self.screen_width(), self.screen_height()),
    {
        Request::new(self.screen_width, self.screen_height, GEOMETRY_TARGETS)
    }

    /// Takes the host's answer to the request for the geometry buffer, and
    /// with it completes the pipeline. A failure ends the construction
    /// with a render-target error.
    pub fn allocated(self, answer: Result<Allocation, rendertarget::Error>) -> (r: Result<
        DeferredPipeline,
        Error,
    >)
        requires
            self.wf(),
        ensures
            match PipelineView::geometry_request(self.screen_width(), self.screen_height()).outcome(
                answer,
            ) {
                Ok(geometry) => r matches Ok(pipeline) && pipeline@ == (PipelineView {
                    program: self.program(),
                    screen: self.screen(),
                    geometry,
                    background_color: self.background_color(),
                }) && pipeline@.wf() && pipeline@.sized(self.screen_width(), self.screen_height()),
                Err(e) => r == Err::<DeferredPipeline, Error>(Error::Rendertarget(e)),
            },
    {
        match self.request().fulfil(answer) {
            Ok(geometry) => Ok(
                DeferredPipeline {
                    light_pass_program: self.program,
                    rendertarget: self.screen,
                    geometry_pass_rendertarget: geometry,
                    full_screen: FullScreen::new(),
                    background_color: self.background_color,
                },
            ),
            Err(e) => Err(Error::Rendertarget(e)),
        }
    }
}

/// Appends the commands that hand `shadow` to `program`.
fn push_shadow(commands: &mut Vec<Command>, program: &Program, shadow: &Option<Shadow>)
    ensures
        final(commands)@ == old(commands)@ + shadow_commands(*program, *shadow),
{
    if let Some(s) = shadow {
        commands.push(
            program.add_uniform_product(
                Uniform::ShadowMvp,
                Mat4::bias(),
                *s.camera.get_projection(),
                *s.camera.get_view(),
            ),
        );
        commands.push(s.map.bind(SHADOW_UNIT));
        commands.push(program.add_uniform_int(Uniform::ShadowMap, 5));
        proof {
            assert(commands@ =~= old(commands)@ + shadow_commands(*program, *shadow));
        }
    } else {
        proof {
            assert(commands@ =~= old(commands)@ + shadow_commands(*program, *shadow));
        }
    }
}

impl DeferredPipeline {
    /// Begins the construction of a pipeline whose targets are
    /// `screen_width` by `screen_height`. The host then compiles the
    /// light-pass program and allocates the screen target and the geometry
    /// buffer, in this order, and hands each answer to the stage it got.
    pub fn new(screen_width: usize, screen_height: usize, background_color: Vec4) -> (stage:
        AwaitingProgram)
        ensures
            stage.screen_width() == screen_width,
            stage.screen_height() == screen_height,
            stage.background_color() == background_color,
    {
        AwaitingProgram { screen_width, screen_height, background_color }
    }

    /// Resizes the pipeline to `screen_width` by `screen_height`, given
    /// the host's answer to the request for a geometry buffer of that
    /// size. The screen target takes the new size whatever the answer; the
    /// geometry buffer is replaced only if the host could allocate it.
    pub fn resize(
        &mut self,
        screen_width: usize,
        screen_height: usize,
        answer: Result<Allocation, rendertarget::Error>,
    ) -> (r: Result<(), Error>)
        requires
            old(self)@.wf(),
        ensures
            final(self)@ == old(self)@.resized(screen_width, screen_height, answer),
            r == PipelineView::resize_result(screen_width, screen_height, answer),
            final(self)@.wf(),
    {
        self.rendertarget.set_size(screen_width, screen_height);
        let request = Request::new(screen_width, screen_height, GEOMETRY_TARGETS);
        match request.fulfil(answer) {
            Ok(geometry) => {
                self.geometry_pass_rendertarget = geometry;
                Ok(())
            },
            Err(e) => Err(Error::Rendertarget(e)),
        }
    }

    /// What the host is to allocate before it calls `resize` with the
    /// same size.
    pub fn resize_request(screen_width: usize, screen_height: usize) -> (request: Request)
        ensures
            request == PipelineView::geometry_request(screen_width, screen_height),
    {
        Request::new(screen_width, screen_height, GEOMETRY_TARGETS)
    }

    /// Sets the colour to which the geometry pass clears.
    pub fn set_background_color(&mut self, color: Vec4)
        ensures
            final(self)@ == (PipelineView { background_color: color, ..old(self)@ }),
    {
        self.background_color = color;
    }

    /// Begins the light pass into the screen target.
    pub fn light_pass_begin(&self, camera: &Camera) -> (pass: Pass)
        requires
            self@.wf(),
        ensures
            pass@ == self@.light_pass(*camera, self@.screen),
    {
        self.light_pass_render_to(camera, &self.rendertarget)
    }

    /// Begins the light pass into `rendertarget`, which may be any target
    /// of the caller's.
    pub fn light_pass_render_to(&self, camera: &Camera, rendertarget: &ColorRendertarget) -> (pass:
        Pass)
        requires
            self@.wf(),
        ensures
            pass@ == self@.light_pass(*camera, rendertarget@),
    {
        let program = &self.light_pass_program;
        let mut commands: Vec<Command> = Vec::new();
        commands.push(rendertarget.bind());
        commands.push(rendertarget.clear(&vec4(ZERO_BITS, ZERO_BITS, ZERO_BITS, ZERO_BITS)));
        PassState::for_light().apply(&mut commands);

        commands.push(self.geometry_pass_color_texture().bind(0));
        commands.push(program.add_uniform_int(Uniform::ColorMap, 0));

        commands.push(self.geometry_pass_position_texture().bind(1));
        commands.push(program.add_uniform_int(Uniform::PositionMap, 1));

        commands.push(self.geometry_pass_normal_texture().bind(2));
        commands.push(program.add_uniform_int(Uniform::NormalMap, 2));

        commands.push(self.geometry_pass_surface_parameters_texture().bind(3));
        commands.push(program.add_uniform_int(Uniform::SurfaceParametersMap, 3));

        commands.push(self.geometry_pass_depth_texture().bind(4));
        commands.push(program.add_uniform_int(Uniform::DepthMap, 4));

        commands.push(program.add_uniform_vec3(Uniform::EyePosition, camera.position()));
        proof {
            assert(commands@ =~= self@.light_pass(*camera, rendertarget@));
        }
        Pass::new(commands)
    }

    /// The full-screen quad with which each light is drawn.
    pub fn full_screen(&self) -> (quad: &FullScreen) {
        &self.full_screen
    }

    /// The light-pass program.
    pub fn light_pass_program(&self) -> (program: &Program)
        ensures
            *program == self@.program,
    {
        &self.light_pass_program
    }

    /// The target that holds the final, lit image.
    pub fn screen_rendertarget(&self) -> (target: &ColorRendertarget)
        ensures
            target@ == self@.screen,
    {
        &self.rendertarget
    }

    /// The channel of the geometry buffer that holds the surface colour.
    pub fn geometry_pass_color_texture(&self) -> (t: &Texture)
        requires
            self@.wf(),
        ensures
            *t == self@.geometry.targets[0],
    {
        &self.geometry_pass_rendertarget.targets[0]
    }

    /// The channel of the geometry buffer that holds the position.
    pub fn geometry_pass_position_texture(&self) -> (t: &Texture)
        requires
            self@.wf(),
        ensures
            *t == self@.geometry.targets[1],
    {
        &self.geometry_pass_rendertarget.targets[1]
    }

    /// The channel of the geometry buffer that holds the normal.
    pub fn geometry_pass_normal_texture(&self) -> (t: &Texture)
        requires
            self@.wf(),
        ensures
            *t == self@.geometry.targets[2],
    {
        &self.geometry_pass_rendertarget.targets[2]
    }

    /// The channel of the geometry buffer that holds the surface
    /// parameters.
    pub fn geometry_pass_surface_parameters_texture(&self) -> (t: &Texture)
        requires
            self@.wf(),
        ensures
            *t == self@.geometry.targets[3],
    {
        &self.geometry_pass_rendertarget.targets[3]
    }

    /// The channel of the geometry buffer that holds the depth.
    pub fn geometry_pass_depth_texture(&self) -> (t: &Texture)
        requires
            self@.wf(),
        ensures
            *t == self@.geometry_depth(),
    {
        self.geometry_pass_rendertarget.depth_target.as_ref().unwrap()
    }

    /// Begins the geometry pass. The caller then draws the scene with a
    /// program that writes colour, position, normal and surface
    /// parameters.
    pub fn geometry_pass_begin(&self) -> (pass: Pass)
        ensures
            pass@ == self@.geometry_pass(),
    {
        let mut commands: Vec<Command> = Vec::new();
        commands.push(self.geometry_pass_rendertarget.bind());
        commands.push(self.geometry_pass_rendertarget.clear(&self.background_color));
        PassState::for_geometry().apply(&mut commands);
        proof {
            assert(commands@ =~= self@.geometry_pass());
        }
        Pass::new(commands)
    }

    /// Shines an ambient light into the bound target.
    pub fn shine_ambient_light(&self, light: &AmbientLight) -> (pass: Pass)
        ensures
            pass@ == ambient_commands(self@.program, *light),
    {
        let program = &self.light_pass_program;
        let mut commands: Vec<Command> = Vec::new();
        commands.push(program.add_uniform_int(Uniform::LightType, LightType::Ambient.discriminant()));
        commands.push(program.add_uniform_vec3(Uniform::AmbientColor, light.base.color));
        commands.push(program.add_uniform_float(Uniform::AmbientIntensity, light.base.intensity));
        commands.push(self.full_screen.render(program));
        proof {
            assert(commands@ =~= ambient_commands(self@.program, *light));
        }
        Pass::new(commands)
    }

    /// Shines a directional light into the bound target, with its shadow
    /// if it has one.
    pub fn shine_directional_light(&self, light: &DirectionalLight) -> (pass: Pass)
        ensures
            pass@ == directional_commands(self@.program, *light),
    {
        let program = &self.light_pass_program;
        let mut commands: Vec<Command> = Vec::new();
        push_shadow(&mut commands, program, &light.shadow);
        commands.push(
            program.add_uniform_int(Uniform::LightType, LightType::Directional.discriminant()),
        );
        commands.push(program.add_uniform_vec3(Uniform::DirectionalDirection, light.direction));
        commands.push(program.add_uniform_vec3(Uniform::DirectionalColor, light.base.color));
        commands.push(
            program.add_uniform_float(Uniform::DirectionalIntensity, light.base.intensity),
        );
        commands.push(self.full_screen.render(program));
        proof {
            assert(commands@ =~= directional_commands(self@.program, *light));
        }
        Pass::new(commands)
    }

    /// Shines a point light into the bound target.
    pub fn shine_point_light(&self, light: &PointLight) -> (pass: Pass)
        ensures
            pass@ == point_commands(self@.program, *light),
    {
        let program = &self.light_pass_program;
        let mut commands: Vec<Command> = Vec::new();
        commands.push(program.add_uniform_int(Uniform::LightType, LightType::Point.discriminant()));
        commands.push(program.add_uniform_vec3(Uniform::PointPosition, light.position));
        commands.push(program.add_uniform_vec3(Uniform::PointColor, light.base.color));
        commands.push(program.add_uniform_float(Uniform::PointIntensity, light.base.intensity));
        commands.push(
            program.add_uniform_float(Uniform::PointAttenuationConstant, light.attenuation.constant),
        );
        commands.push(
            program.add_uniform_float(Uniform::PointAttenuationLinear, light.attenuation.linear),
        );
        commands.push(
            program.add_uniform_float(Uniform::PointAttenuationExp, light.attenuation.exp),
        );
        commands.push(self.full_screen.render(program));
        proof {
            assert(commands@ =~= point_commands(self@.program, *light));
        }
        Pass::new(commands)
    }

    /// Shines a spot light into the bound target, with its shadow if it
    /// has one.
    pub fn shine_spot_light(&self, light: &SpotLight) -> (pass: Pass)
        ensures
            pass@ == spot_commands(self@.program, *light),
    {
        let program = &self.light_pass_program;
        let mut commands: Vec<Command> = Vec::new();
        push_shadow(&mut commands, program, &light.shadow);
        commands.push(program.add_uniform_int(Uniform::LightType, LightType::Spot.discriminant()));
        commands.push(program.add_uniform_vec3(Uniform::SpotPosition, light.position));
        commands.push(program.add_uniform_vec3(Uniform::SpotDirection, light.direction));
        commands.push(program.add_uniform_vec3(Uniform::SpotColor, light.base.color));
        commands.push(program.add_uniform_float(Uniform::SpotIntensity, light.base.intensity));
        commands.push(
            program.add_uniform_float(Uniform::SpotAttenuationConstant, light.attenuation.constant),
        );
        commands.push(
            program.add_uniform_float(Uniform::SpotAttenuationLinear, light.attenuation.linear),
        );
        commands.push(program.add_uniform_float(Uniform::SpotAttenuationExp, light.attenuation.exp));
        commands.push(program.add_uniform_cosine(Uniform::SpotCutoff, light.cutoff));
        commands.push(self.full_screen.render(program));
        proof {
            assert(commands@ =~= spot_commands(self@.program, *light));
        }
        Pass::new(commands)
    }
}

} // verus!

use dust::camera::Camera;
use dust::command::Command;
use dust::light::LightType;
use dust::math::{vec3, vec4, Mat4, Scalar, HALF_BITS, ONE_BITS, ZERO_BITS};
use dust::objects::FullScreen;
use dust::program;
use dust::program::{Program, Uniform, UniformValue};
use dust::renderer::Error;
use dust::rendertarget;
use dust::rendertarget::{Allocation, ColorRendertarget, Request};
use dust::state;
use dust::state::{BlendType, CullType, DepthTestType, PassState};
use dust::texture;
use dust::texture::Texture;

#[test]
fn bit_patterns_of_the_constants() {
    assert_eq!(f32::from_bits(ZERO_BITS), 0.0);
    assert_eq!(f32::from_bits(HALF_BITS), 0.5);
    assert_eq!(f32::from_bits(ONE_BITS), 1.0);
    assert_eq!(Scalar::from_bits(1.5f32.to_bits()).to_bits(), 1.5f32.to_bits());
}

#[test]
fn vectors_and_matrices_keep_their_components() {
    let v = vec3(1, 2, 3);
    assert_eq!((v.x.bits, v.y.bits, v.z.bits), (1, 2, 3));
    let w = vec4(4, 5, 6, 7);
    assert_eq!((w.x.bits, w.y.bits, w.z.bits, w.w.bits), (4, 5, 6, 7));
    let m = Mat4::new(1, 2, 3, 4, 5, 6, 7, 8, 9, 10, 11, 12, 13, 14, 15, 16);
    assert_eq!(m.x, vec4(1, 2, 3, 4));
    assert_eq!(m.y, vec4(5, 6, 7, 8));
    assert_eq!(m.z, vec4(9, 10, 11, 12));
    assert_eq!(m.w, vec4(13, 14, 15, 16));
}

#[test]
fn light_type_discriminants() {
    assert_eq!(LightType::Ambient.discriminant(), 0);
    assert_eq!(LightType::Directional.discriminant(), 1);
    assert_eq!(LightType::Point.discriminant(), 2);
    assert_eq!(LightType::Spot.discriminant(), 3);
}

#[test]
fn uniform_names_are_those_of_the_shader() {
    let names = [
        (Uniform::ColorMap, "colorMap"),
        (Uniform::PositionMap, "positionMap"),
        (Uniform::NormalMap, "normalMap"),
        (Uniform::SurfaceParametersMap, "surfaceParametersMap"),
        (Uniform::DepthMap, "depthMap"),
        (Uniform::EyePosition, "eyePosition"),
        (Uniform::LightType, "lightType"),
        (Uniform::ShadowMvp, "shadowMVP"),
        (Uniform::ShadowMap, "shadowMap"),
        (Uniform::AmbientColor, "ambientLight.base.color"),
        (Uniform::AmbientIntensity, "ambientLight.base.intensity"),
        (Uniform::DirectionalDirection, "directionalLight.direction"),
        (Uniform::DirectionalColor, "directionalLight.base.color"),
        (Uniform::DirectionalIntensity, "directionalLight.base.intensity"),
        (Uniform::PointPosition, "pointLight.position"),
        (Uniform::PointColor, "pointLight.base.color"),
        (Uniform::PointIntensity, "pointLight.base.intensity"),
        (Uniform::PointAttenuationConstant, "pointLight.attenuation.constant"),
        (Uniform::PointAttenuationLinear, "pointLight.attenuation.linear"),
        (Uniform::PointAttenuationExp, "pointLight.attenuation.exp"),
        (Uniform::SpotPosition, "spotLight.position"),
        (Uniform::SpotDirection, "spotLight.direction"),
        (Uniform::SpotColor, "spotLight.base.color"),
        (Uniform::SpotIntensity, "spotLight.base.intensity"),
        (Uniform::SpotAttenuationConstant, "spotLight.attenuation.constant"),
        (Uniform::SpotAttenuationLinear, "spotLight.attenuation.linear"),
        (Uniform::SpotAttenuationExp, "spotLight.attenuation.exp"),
        (Uniform::SpotCutoff, "spotLight.cutoff"),
    ];
    for (uniform, name) in names {
        assert_eq!(uniform.name(), name);
    }
}

#[test]
fn program_builds_one_command_per_uniform_kind() {
    let p = Program::new(9);
    let m = Mat4::bias();
    assert_eq!(
        p.add_uniform_int(Uniform::LightType, 2),
        Command::SetUniform { program: 9, uniform: Uniform::LightType, value: UniformValue::Int(2) }
    );
    assert_eq!(
        p.add_uniform_float(Uniform::SpotIntensity, Scalar::from_bits(5)),
        Command::SetUniform {
            program: 9,
            uniform: Uniform::SpotIntensity,
            value: UniformValue::Float(Scalar { bits: 5 })
        }
    );
    assert_eq!(
        p.add_uniform_cosine(Uniform::SpotCutoff, Scalar::from_bits(6)),
        Command::SetUniform {
            program: 9,
            uniform: Uniform::SpotCutoff,
            value: UniformValue::Cosine(Scalar { bits: 6 })
        }
    );
    assert_eq!(
        p.add_uniform_vec3(Uniform::EyePosition, vec3(1, 2, 3)),
        Command::SetUniform {
            program: 9,
            uniform: Uniform::EyePosition,
            value: UniformValue::Vec3(vec3(1, 2, 3))
        }
    );
    assert_eq!(
        p.add_uniform_mat4(Uniform::ShadowMvp, m),
        Command::SetUniform { program: 9, uniform: Uniform::ShadowMvp, value: UniformValue::Mat4(m) }
    );
    assert_eq!(
        p.add_uniform_product(Uniform::ShadowMvp, m, m, m),
        Command::SetUniform {
            program: 9,
            uniform: Uniform::ShadowMvp,
            value: UniformValue::Product(m, m, m)
        }
    );
}

#[test]
fn state_setters_are_idempotent_commands() {
    assert_eq!(state::depth_write(true), Command::DepthWrite(true));
    assert_eq!(state::depth_write(true), state::depth_write(true));
    assert_eq!(state::depth_test(DepthTestType::LessEqual), Command::DepthTest(DepthTestType::LessEqual));
    assert_eq!(state::cull(CullType::Front), Command::Cull(CullType::Front));
    assert_eq!(state::blend(BlendType::OneOne), Command::Blend(BlendType::OneOne));
}

#[test]
fn pass_states_list_their_commands_in_order() {
    let mut commands = vec![Command::DrawFullScreen { program: 1 }];
    PassState::for_geometry().apply(&mut commands);
    assert_eq!(
        commands,
        vec![
            Command::DrawFullScreen { program: 1 },
            Command::DepthWrite(true),
            Command::DepthTest(DepthTestType::LessEqual),
            Command::Cull(CullType::Disabled),
            Command::Blend(BlendType::Disabled),
        ]
    );
    let mut commands = Vec::new();
    PassState::for_light().apply(&mut commands);
    assert_eq!(
        commands,
        vec![
            Command::DepthWrite(false),
            Command::DepthTest(DepthTestType::Disabled),
            Command::Cull(CullType::Back),
            Command::Blend(BlendType::OneOne),
        ]
    );
}

#[test]
fn texture_binds_to_the_given_unit() {
    let t = Texture::new(3, 16, 8);
    assert_eq!(t, Texture { id: 3, width: 16, height: 8 });
    assert_eq!(t.bind(4), Command::BindTexture { texture: 3, unit: 4 });
}

#[test]
fn rendertarget_attachments_share_the_size_of_the_target() {
    let names = Allocation { framebuffer: 1, targets: vec![2, 3, 4], depth_target: 5 };
    let target = ColorRendertarget::new(320, 200, 3, &names).unwrap();
    assert_eq!(target.id, 1);
    assert_eq!((target.width, target.height), (320, 200));
    assert_eq!(
        target.targets,
        vec![
            Texture { id: 2, width: 320, height: 200 },
            Texture { id: 3, width: 320, height: 200 },
            Texture { id: 4, width: 320, height: 200 },
        ]
    );
    assert_eq!(target.depth_target, Some(Texture { id: 5, width: 320, height: 200 }));
    assert_eq!(target.bind(), Command::BindRendertarget { framebuffer: 1, width: 320, height: 200 });
    assert_eq!(target.clear(&vec4(1, 2, 3, 4)), Command::Clear { color: vec4(1, 2, 3, 4) });
}

#[test]
fn rendertarget_rejects_an_allocation_of_another_shape() {
    let names = Allocation { framebuffer: 1, targets: vec![2, 3, 4], depth_target: 5 };
    assert_eq!(
        ColorRendertarget::new(320, 200, 4, &names),
        Err(rendertarget::Error::AttachmentMismatch { expected: 4, found: 3 })
    );
    assert_eq!(
        ColorRendertarget::default(320, 200, &names),
        Err(rendertarget::Error::AttachmentMismatch { expected: 1, found: 3 })
    );
    let names = Allocation { framebuffer: 1, targets: vec![], depth_target: 5 };
    let target = ColorRendertarget::new(320, 200, 0, &names).unwrap();
    assert!(target.targets.is_empty());
}

#[test]
fn default_rendertarget_has_one_colour_attachment_and_depth() {
    let names = Allocation { framebuffer: 0, targets: vec![8], depth_target: 9 };
    let target = ColorRendertarget::default(900, 700, &names).unwrap();
    assert_eq!(target.targets, vec![Texture { id: 8, width: 900, height: 700 }]);
    assert_eq!(target.depth_target, Some(Texture { id: 9, width: 900, height: 700 }));
}

#[test]
fn request_hands_the_failure_of_the_host_on() {
    let request = Request::new(64, 32, 2);
    let failure = rendertarget::Error::FailedToCreateFramebuffer { message: String::from("no memory") };
    assert_eq!(
        request.fulfil(Err(failure)),
        Err(rendertarget::Error::FailedToCreateFramebuffer { message: String::from("no memory") })
    );
    let names = Allocation { framebuffer: 1, targets: vec![2, 3], depth_target: 4 };
    let target = request.fulfil(Ok(names)).unwrap();
    assert_eq!((target.width, target.height, target.targets.len()), (64, 32, 2));
    let names = Allocation { framebuffer: 1, targets: vec![2], depth_target: 4 };
    assert_eq!(
        request.fulfil(Ok(names)),
        Err(rendertarget::Error::AttachmentMismatch { expected: 2, found: 1 })
    );
}

#[test]
fn set_size_resizes_target_and_attachments_and_keeps_the_names() {
    let names = Allocation { framebuffer: 1, targets: vec![2, 3], depth_target: 4 };
    let mut target = ColorRendertarget::new(320, 200, 2, &names).unwrap();
    target.set_size(640, 400);
    assert_eq!((target.id, target.width, target.height), (1, 640, 400));
    assert_eq!(
        target.targets,
        vec![Texture { id: 2, width: 640, height: 400 }, Texture { id: 3, width: 640, height: 400 }]
    );
    assert_eq!(target.depth_target, Some(Texture { id: 4, width: 640, height: 400 }));
}

#[test]
fn full_screen_draws_with_the_given_program() {
    let quad = FullScreen::new();
    assert_eq!(quad.render(&Program::new(12)), Command::DrawFullScreen { program: 12 });
}

#[test]
fn camera_hands_out_what_it_was_given() {
    let m = Mat4::bias();
    let n = Mat4::new(1, 2, 3, 4, 5, 6, 7, 8, 9, 10, 11, 12, 13, 14, 15, 16);
    let camera = Camera::new(vec3(1, 2, 3), m, n);
    assert_eq!(camera.position(), vec3(1, 2, 3));
    assert_eq!(*camera.get_view(), m);
    assert_eq!(*camera.get_projection(), n);
}

#[test]
fn each_sub_error_converts_into_its_own_variant() {
    let io = std::io::Error::new(std::io::ErrorKind::Other, "disk");
    assert!(matches!(Error::from(io), Error::IO(_)));
    let p = program::Error::FailedToLinkProgram { message: String::from("link") };
    assert!(matches!(Error::from(p), Error::Program(program::Error::FailedToLinkProgram { .. })));
    let r = rendertarget::Error::FailedToCreateFramebuffer { message: String::from("fb") };
    assert!(matches!(
        Error::from(r),
        Error::Rendertarget(rendertarget::Error::FailedToCreateFramebuffer { .. })
    ));
    let t = texture::Error::FailedToCreateTexture { message: String::from("tex") };
    assert!(matches!(Error::from(t), Error::Texture(texture::Error::FailedToCreateTexture { .. })));
    let e = Error::LightPassRendertargetNotAvailable { message: String::from("none") };
    assert!(matches!(e, Error::LightPassRendertargetNotAvailable { .. }));
}

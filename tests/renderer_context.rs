use renderer::renderer_context::{
    init_steps, window_size, Error, InitStep, OpenGLVersion, WindowDimension,
};

#[test]
fn dimension_and_version_constructors() {
    let d = WindowDimension::of(800, 600);
    assert_eq!((d.width, d.height), (800, 600));
    let v = OpenGLVersion::of(3, 3);
    assert_eq!((v.major(), v.minor()), (3, 3));
}

#[test]
fn defaults() {
    let d = WindowDimension::default();
    assert_eq!((d.width, d.height), (900, 700));
    let v = OpenGLVersion::default();
    assert_eq!((v.major(), v.minor()), (4, 1));
}

#[test]
fn steps_in_order() {
    let steps = init_steps(&WindowDimension::of(800, 600), &OpenGLVersion::of(3, 3)).unwrap();
    assert_eq!(
        steps,
        vec![
            InitStep::InitSdl,
            InitStep::AcquireVideo,
            InitStep::SetCoreProfile,
            InitStep::SetMajorVersion(3),
            InitStep::SetMinorVersion(3),
            InitStep::SetDebugFlag,
            InitStep::BuildWindow { width: 800, height: 600 },
            InitStep::CreateContext,
            InitStep::LoadFunctions,
        ]
    );
}

#[test]
fn attributes_are_set_before_the_window_is_built() {
    let steps = init_steps(&WindowDimension::default(), &OpenGLVersion::default()).unwrap();
    let window = steps
        .iter()
        .position(|s| matches!(s, InitStep::BuildWindow { .. }))
        .unwrap();
    let attributes: Vec<usize> = steps
        .iter()
        .enumerate()
        .filter(|(_, s)| {
            matches!(
                s,
                InitStep::SetCoreProfile
                    | InitStep::SetMajorVersion(_)
                    | InitStep::SetMinorVersion(_)
                    | InitStep::SetDebugFlag
            )
        })
        .map(|(i, _)| i)
        .collect();
    assert_eq!(attributes.len(), 4);
    assert!(attributes.iter().all(|&i| i < window));
}

#[test]
fn oversized_window_is_refused_before_any_step() {
    let too_wide = WindowDimension::of(u32::MAX as usize + 1, 600);
    assert_eq!(init_steps(&too_wide, &OpenGLVersion::default()), Err(Error::WindowTooLarge));
    let too_tall = WindowDimension::of(800, u32::MAX as usize + 1);
    assert_eq!(window_size(&too_tall), Err(Error::WindowTooLarge));
    assert_eq!(
        window_size(&WindowDimension::of(u32::MAX as usize, 1)),
        Ok((u32::MAX, 1))
    );
}

#[test]
fn each_failing_step_has_its_error() {
    let m = || "boom".to_string();
    assert_eq!(InitStep::InitSdl.failure(m()), Some(Error::SdlInit(m())));
    assert_eq!(InitStep::AcquireVideo.failure(m()), Some(Error::VideoSubsystemInit(m())));
    assert_eq!(
        InitStep::BuildWindow { width: 1, height: 1 }.failure(m()),
        Some(Error::WindowInit(m()))
    );
    assert_eq!(InitStep::CreateContext.failure(m()), Some(Error::ContextInit(m())));
    assert_eq!(InitStep::SetDebugFlag.failure(m()), None);
    assert_eq!(InitStep::LoadFunctions.failure(m()), None);
}

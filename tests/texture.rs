use renderer::texture::{
    format_from_depth, texture_commands, upload_parameters, Decoded, ElementType, Image,
    ImageLoadingError, Texture, TextureCommand, TextureUpload, GL_FLOAT, GL_RED, GL_RG, GL_RGB, GL_RGBA, GL_UNSIGNED_BYTE, MAX_SIDE,
};

#[test]
fn depths_one_to_four_select_their_formats() {
    assert_eq!(format_from_depth(1), Ok(GL_RED));
    assert_eq!(format_from_depth(2), Ok(GL_RG));
    assert_eq!(format_from_depth(3), Ok(GL_RGB));
    assert_eq!(format_from_depth(4), Ok(GL_RGBA));
}

#[test]
fn other_depths_are_unsupported() {
    assert_eq!(format_from_depth(0), Err(ImageLoadingError::UnsupportedFormat));
    assert_eq!(format_from_depth(5), Err(ImageLoadingError::UnsupportedFormat));
    assert_eq!(format_from_depth(usize::MAX), Err(ImageLoadingError::UnsupportedFormat));
}

#[test]
fn gl_names_have_their_registry_values() {
    assert_eq!(GL_RED, 0x1903);
    assert_eq!(GL_RG, 0x8227);
    assert_eq!(GL_RGB, 0x1907);
    assert_eq!(GL_RGBA, 0x1908);
    assert_eq!(GL_UNSIGNED_BYTE, 0x1401);
    assert_eq!(GL_FLOAT, 0x1406);
}

#[test]
fn byte_image_uploads_with_matching_format() {
    let r = upload_parameters(Decoded::ImageU8 { width: 64, height: 32, depth: 3 });
    assert_eq!(
        r,
        Ok(TextureUpload {
            internal_format: 0x1908,
            width: 64,
            height: 32,
            format: GL_RGB,
            gl_type: GL_UNSIGNED_BYTE,
        })
    );
}

#[test]
fn float_image_uploads_as_float() {
    let r = upload_parameters(Decoded::ImageF32 { width: 2, height: 5, depth: 1 });
    assert_eq!(
        r,
        Ok(TextureUpload {
            internal_format: 0x1908,
            width: 2,
            height: 5,
            format: GL_RED,
            gl_type: GL_FLOAT,
        })
    );
}

#[test]
fn every_depth_through_the_upload() {
    let expected = [GL_RED, GL_RG, GL_RGB, GL_RGBA];
    for depth in 1..=4usize {
        let r = upload_parameters(Decoded::ImageU8 { width: 1, height: 1, depth }).unwrap();
        assert_eq!(r.format, expected[depth - 1]);
    }
    for depth in [0usize, 5, 6] {
        assert_eq!(
            upload_parameters(Decoded::ImageF32 { width: 1, height: 1, depth }),
            Err(ImageLoadingError::UnsupportedFormat)
        );
    }
}

#[test]
fn decoder_message_is_kept() {
    let r = upload_parameters(Decoded::Error("bad header".to_string()));
    assert_eq!(r, Err(ImageLoadingError::InvalidImage("bad header".to_string())));
}

#[test]
fn side_above_signed_maximum_is_too_large() {
    let over = i32::MAX as usize + 1;
    assert_eq!(
        upload_parameters(Decoded::ImageU8 { width: over, height: 1, depth: 4 }),
        Err(ImageLoadingError::TooLarge)
    );
    assert_eq!(
        upload_parameters(Decoded::ImageF32 { width: 1, height: over, depth: 4 }),
        Err(ImageLoadingError::TooLarge)
    );
}

#[test]
fn too_large_comes_before_unsupported_format() {
    let over = i32::MAX as usize + 1;
    assert_eq!(
        upload_parameters(Decoded::ImageU8 { width: over, height: 1, depth: 9 }),
        Err(ImageLoadingError::TooLarge)
    );
}

#[test]
fn side_equal_to_signed_maximum_is_accepted() {
    assert_eq!(MAX_SIDE, i32::MAX as usize);
    let r = upload_parameters(Decoded::ImageU8 { width: MAX_SIDE, height: MAX_SIDE, depth: 4 })
        .unwrap();
    assert_eq!(r.width, i32::MAX);
    assert_eq!(r.height, i32::MAX);
    assert_eq!(r.format, GL_RGBA);
}

#[test]
fn image_descriptions() {
    assert_eq!(
        Image::from_byte(3, 4, 2),
        Ok(Image { gl_type: GL_UNSIGNED_BYTE, width: 3, height: 4, depth: 2 })
    );
    assert_eq!(
        Image::from_float(3, 4, 7),
        Ok(Image { gl_type: GL_FLOAT, width: 3, height: 4, depth: 7 })
    );
    assert_eq!(Image::from_float(usize::MAX, 4, 1), Err(ImageLoadingError::TooLarge));
    assert_eq!(ElementType::Float.gl_type(), GL_FLOAT);
}

#[test]
fn texture_keeps_its_handle() {
    assert_eq!(Texture::from_handle(17).handle(), 17);
}

#[test]
fn texture_calls_set_filters_before_upload_and_mipmaps_last() {
    let cmds = texture_commands(Decoded::ImageU8 { width: 4, height: 4, depth: 2 }).unwrap();
    let upload = TextureUpload {
        internal_format: 0x1908,
        width: 4,
        height: 4,
        format: GL_RG,
        gl_type: GL_UNSIGNED_BYTE,
    };
    assert_eq!(
        cmds,
        vec![
            TextureCommand::Create,
            TextureCommand::MinFilterLinear,
            TextureCommand::MagFilterLinear,
            TextureCommand::Upload(upload),
            TextureCommand::GenerateMipmap,
        ]
    );
}

#[test]
fn refused_image_makes_no_calls() {
    assert_eq!(
        texture_commands(Decoded::ImageU8 { width: 4, height: 4, depth: 0 }),
        Err(ImageLoadingError::UnsupportedFormat)
    );
    assert_eq!(
        texture_commands(Decoded::Error("truncated".to_string())),
        Err(ImageLoadingError::InvalidImage("truncated".to_string()))
    );
}

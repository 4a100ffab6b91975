use banana::params::GenerateParams;

#[test]
fn new_params_take_the_defaults() {
    let p = GenerateParams::new("a cosmic banana");
    assert_eq!(p.prompt, "a cosmic banana");
    assert_eq!(p.aspect_ratio, "1:1");
    assert_eq!(p.size, "1K");
    assert_eq!(p.model, "gemini-3-pro-image-preview");
    assert_eq!(p.num_images, 1);
    assert_eq!(p.seed, None);
    assert_eq!(p.negative_prompt, None);
    assert_eq!(p.reference_image, None);
    assert_eq!(p.reference_mime_type, None);
}

#[test]
fn default_params_have_an_empty_prompt() {
    let p = GenerateParams::default();
    assert_eq!(p.prompt, "");
    assert_eq!(p.aspect_ratio, "1:1");
    assert_eq!(p.size, "1K");
    assert_eq!(p.model, "gemini-3-pro-image-preview");
    assert_eq!(p.num_images, 1);
}

#[test]
fn builders_replace_one_field_each() {
    let p = GenerateParams::new("x")
        .with_aspect_ratio("16:9")
        .with_size("2K")
        .with_model("gemini-2.5-flash-image")
        .with_seed(-7)
        .with_negative_prompt("blurry");
    assert_eq!(p.prompt, "x");
    assert_eq!(p.aspect_ratio, "16:9");
    assert_eq!(p.size, "2K");
    assert_eq!(p.model, "gemini-2.5-flash-image");
    assert_eq!(p.seed, Some(-7));
    assert_eq!(p.negative_prompt.as_deref(), Some("blurry"));
    assert_eq!(p.num_images, 1);
}

#[test]
fn num_images_is_held_between_one_and_four() {
    assert_eq!(GenerateParams::new("x").with_num_images(0).num_images, 1);
    assert_eq!(GenerateParams::new("x").with_num_images(1).num_images, 1);
    assert_eq!(GenerateParams::new("x").with_num_images(3).num_images, 3);
    assert_eq!(GenerateParams::new("x").with_num_images(4).num_images, 4);
    assert_eq!(GenerateParams::new("x").with_num_images(5).num_images, 4);
    assert_eq!(GenerateParams::new("x").with_num_images(255).num_images, 4);
}

#[test]
fn reference_image_makes_an_edit() {
    let plain = GenerateParams::new("x");
    assert!(!plain.is_edit());
    let edit = plain.with_reference_image("aGk=".to_string(), "image/png".to_string());
    assert!(edit.is_edit());
    assert_eq!(edit.reference_image.as_deref(), Some("aGk="));
    assert_eq!(edit.reference_mime_type.as_deref(), Some("image/png"));
}

#[test]
fn clone_of_params_keeps_every_field() {
    let p = GenerateParams::new("x")
        .with_aspect_ratio("4:3")
        .with_num_images(2)
        .with_seed(11)
        .with_negative_prompt("noise")
        .with_reference_image("QUJD".to_string(), "image/webp".to_string());
    let q = p.clone();
    assert_eq!(q.prompt, p.prompt);
    assert_eq!(q.aspect_ratio, "4:3");
    assert_eq!(q.size, p.size);
    assert_eq!(q.model, p.model);
    assert_eq!(q.num_images, 2);
    assert_eq!(q.seed, Some(11));
    assert_eq!(q.negative_prompt, p.negative_prompt);
    assert_eq!(q.reference_image, p.reference_image);
    assert_eq!(q.reference_mime_type, p.reference_mime_type);
}

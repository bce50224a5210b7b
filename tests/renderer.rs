use poprustica::{load_texture, AssetError, FrameCommand, Grafx, QuadGeometry, Registry, RenderError, Sprite};

fn png_2x2() -> Vec<u8> {
    encode_png(2, 2, (1..=16).collect())
}

fn encode_png(width: u32, height: u32, rgba: Vec<u8>) -> Vec<u8> {
    let image = image::RgbaImage::from_raw(width, height, rgba).unwrap();
    let mut bytes = std::io::Cursor::new(Vec::new());
    image.write_to(&mut bytes, image::ImageFormat::Png).unwrap();
    bytes.into_inner()
}

fn sprite(texture: &str) -> Sprite<()> {
    Sprite::new(String::from(texture), &QuadGeometry::fullscreen_quad(), ())
}

fn drawn(commands: &[FrameCommand]) -> Vec<String> {
    commands
        .iter()
        .filter_map(|c| match c {
            FrameCommand::Draw(k) => Some(k.clone()),
            _ => None,
        })
        .collect()
}

fn framed(commands: &[FrameCommand]) -> bool {
    let n = commands.len();
    n >= 4
        && matches!(commands[0], FrameCommand::BeginPass)
        && matches!(commands[1], FrameCommand::SetPipeline)
        && matches!(commands[n - 2], FrameCommand::Submit)
        && matches!(commands[n - 1], FrameCommand::Present)
}

#[test]
fn registry_insert_get_replace() {
    let mut r: Registry<u32> = Registry::new();
    assert_eq!(r.len(), 0);
    assert_eq!(r.insert(String::from("a"), 1), None);
    assert_eq!(r.insert(String::from("b"), 2), None);
    assert_eq!(r.len(), 2);
    assert_eq!(r.get(&String::from("a")), Some(&1));
    assert_eq!(r.insert(String::from("a"), 3), Some(1));
    assert_eq!(r.len(), 2);
    assert_eq!(r.get(&String::from("a")), Some(&3));
    assert_eq!(r.get(&String::from("c")), None);
    assert!(r.contains_key(&String::from("b")));
    assert!(!r.contains_key(&String::from("c")));
}

#[test]
fn missing_texture_is_reported_and_frame_presented() {
    let mut g: Grafx<u32, ()> = Grafx::new();
    g.add_sprite(String::from("background"), sprite("key"));
    let plan = g.render(&vec![String::from("background")]);
    assert!(framed(&plan.commands));
    assert_eq!(plan.commands.len(), 4);
    assert_eq!(plan.missing_textures, vec![String::from("key")]);
    assert_eq!(plan.result, Err(RenderError::EmptyFrame));
}

#[test]
fn partial_asset_load_keeps_the_valid_pair() {
    let definitions = vec![
        (String::from("broken"), vec![0xde, 0xad, 0xbe, 0xef, 0, 0, 0, 0]),
        (String::from("background"), png_2x2()),
    ];
    let mut g: Grafx<u32, ()> = Grafx::new();
    let geometry = QuadGeometry::fullscreen_quad();
    let mut handle = 0;
    for (key, bytes) in definitions {
        let loaded = load_texture(&bytes).map(|upload| {
            assert_eq!((upload.width, upload.height), (2, 2));
            assert_eq!(upload.pixels.len(), 16);
            handle += 1;
            (handle, ())
        });
        let registered = g.register_asset(key.clone(), loaded, &geometry);
        assert_eq!(registered.is_ok(), key == "background");
    }
    assert_eq!(g.bindings.len(), 1);
    assert_eq!(g.sprites.len(), 1);
    assert!(g.bindings.contains_key(&String::from("background")));
    assert!(!g.sprites.contains_key(&String::from("broken")));
    let plan = g.render(&vec![String::from("broken"), String::from("background")]);
    assert!(framed(&plan.commands));
    assert_eq!(drawn(&plan.commands), vec![String::from("background")]);
    assert!(plan.missing_textures.is_empty());
    assert_eq!(plan.result, Ok(()));
}

#[test]
fn partial_failure_still_draws_the_rest() {
    let mut g: Grafx<u32, ()> = Grafx::new();
    g.add_texture(String::from("sky"), 1);
    g.add_sprite(String::from("a"), sprite("gone"));
    g.add_sprite(String::from("b"), sprite("sky"));
    g.add_sprite(String::from("c"), sprite("sky"));
    let plan = g.render(&vec![String::from("a"), String::from("b"), String::from("c")]);
    assert!(framed(&plan.commands));
    assert_eq!(drawn(&plan.commands), vec![String::from("b"), String::from("c")]);
    assert_eq!(plan.missing_textures, vec![String::from("gone")]);
    assert_eq!(plan.result, Ok(()));
}

#[test]
fn nothing_visible_is_no_failure() {
    let g: Grafx<u32, ()> = Grafx::new();
    let plan = g.render(&vec![]);
    assert!(framed(&plan.commands));
    assert_eq!(plan.commands.len(), 4);
    assert_eq!(plan.result, Ok(()));
    let plan = g.render(&vec![String::from("nobody")]);
    assert_eq!(plan.commands.len(), 4);
    assert_eq!(plan.result, Ok(()));
}

#[test]
fn replacing_a_texture_needs_no_sprite_change() {
    let mut g: Grafx<u32, ()> = Grafx::new();
    g.add_sprite(String::from("bg"), sprite("tex"));
    g.add_texture(String::from("tex"), 1);
    g.add_texture(String::from("tex"), 2);
    assert_eq!(g.bindings.get(&String::from("tex")), Some(&2));
    let plan = g.render(&vec![String::from("bg")]);
    assert_eq!(drawn(&plan.commands), vec![String::from("bg")]);
}

#[test]
fn registry_remove() {
    let mut r: Registry<u32> = Registry::new();
    r.insert(String::from("a"), 1);
    r.insert(String::from("b"), 2);
    r.insert(String::from("c"), 3);
    assert_eq!(r.remove(&String::from("b")), Some(2));
    assert_eq!(r.remove(&String::from("b")), None);
    assert_eq!(r.len(), 2);
    assert_eq!(r.get(&String::from("a")), Some(&1));
    assert_eq!(r.get(&String::from("c")), Some(&3));
}

#[test]
fn removed_texture_leaves_sprite_reported_missing() {
    let mut g: Grafx<u32, ()> = Grafx::new();
    g.add_texture(String::from("tex"), 1);
    g.add_sprite(String::from("bg"), sprite("tex"));
    assert_eq!(g.bindings.remove(&String::from("tex")), Some(1));
    let plan = g.render(&vec![String::from("bg")]);
    assert!(framed(&plan.commands));
    assert!(drawn(&plan.commands).is_empty());
    assert_eq!(plan.missing_textures, vec![String::from("tex")]);
    assert_eq!(plan.result, Err(RenderError::EmptyFrame));
}

#[test]
fn register_asset_pairs_texture_and_sprite() {
    let mut g: Grafx<u32, u8> = Grafx::new();
    let geometry = QuadGeometry::fullscreen_quad();
    assert_eq!(g.register_asset(String::from("hero"), Ok((7, 9)), &geometry), Ok(()));
    assert_eq!(g.bindings.get(&String::from("hero")), Some(&7));
    let sprite = g.sprites.get(&String::from("hero")).unwrap();
    assert_eq!(sprite.texture_key, "hero");
    assert_eq!(sprite.num_indices, 6);
    assert_eq!(sprite.buffers, 9);
    let plan = g.render(&vec![String::from("hero")]);
    assert_eq!(drawn(&plan.commands), vec![String::from("hero")]);
    assert_eq!(plan.result, Ok(()));
}

#[test]
fn register_asset_skips_a_failed_load() {
    let mut g: Grafx<u32, u8> = Grafx::new();
    let geometry = QuadGeometry::fullscreen_quad();
    assert_eq!(
        g.register_asset(String::from("bad"), Err(AssetError::DecodeError), &geometry),
        Err(AssetError::DecodeError)
    );
    assert_eq!(g.bindings.len(), 0);
    assert_eq!(g.sprites.len(), 0);
}

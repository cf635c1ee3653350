use material_assets::{
    AssetCache, AssetError, AssetHandle, FileOutcome, HandleState, Identifier, InFlight,
    MaterialKind, MaterialManager, NewMaterialData, NewMaterialHandle, TextureManager,
    UnlitPipelineDesc, VertexFormat, packed_attributes,
};
use std::sync::Arc;

type Manager = MaterialManager<String, u32>;

fn pbr_description() -> NewMaterialHandle {
    NewMaterialHandle::new(
        Some("main.png".to_string()),
        Some("rough.png".to_string()),
        Some("normal.png".to_string()),
        Some(0.25f32.to_bits()),
        Some(0.75f32.to_bits()),
        Some([1.0f32.to_bits(), 0.5f32.to_bits(), 0.0f32.to_bits(), 1.0f32.to_bits()]),
    )
}

fn resolve_textures(m: &mut Manager, desc: &NewMaterialHandle) -> Vec<HandleState<String>> {
    let mut states = Vec::new();
    for path in desc.texture_paths() {
        let (h, start) = m.get_texture(&path);
        if start {
            m.texture_loaded(&path, Ok(Arc::new(format!("gpu:{}", path))));
        }
        states.push(m.poll_texture(&h));
    }
    states
}

#[test]
fn missing_file_is_pending_then_not_found() {
    let mut m = Manager::new(true);
    let (h, start) = m.get("./assets/material.ron".to_string());
    assert!(start);
    assert!(matches!(m.poll(&h), HandleState::Pending));
    assert!(m.finish_read(&h, FileOutcome::NotFound).is_none());
    match m.poll(&h) {
        HandleState::Failed(e) => assert!(matches!(*e, AssetError::FileNotFound)),
        _ => panic!("expected a failure"),
    }
}

#[test]
fn second_load_joins_the_first() {
    let mut m = Manager::new(false);
    let (h1, s1) = m.get("a.ron".to_string());
    let (h2, s2) = m.get("a.ron".to_string());
    assert!(s1);
    assert!(!s2);
    assert!(h1.handle_id == h2.handle_id);
    let (_, s3) = m.get("b.ron".to_string());
    assert!(s3);
}

#[test]
fn load_after_commit_joins_the_stored_result() {
    let mut m = Manager::new(false);
    let (h, _) = m.get("a.ron".to_string());
    m.finish_read(&h, FileOutcome::NotFound);
    let (_, again) = m.get("a.ron".to_string());
    assert!(!again);
}

#[test]
fn texture_requests_share_one_upload() {
    let mut m = Manager::new(false);
    let (h1, s1) = m.get_texture(&"t.png".to_string());
    let (h2, s2) = m.get_texture(&"t.png".to_string());
    assert!(s1);
    assert!(!s2);
    assert!(matches!(m.poll_texture(&h2), HandleState::Pending));
    m.texture_loaded(&"t.png".to_string(), Ok(Arc::new("tex".to_string())));
    let (_, s3) = m.get_texture(&"t.png".to_string());
    assert!(!s3);
    match (m.poll_texture(&h1), m.poll_texture(&h2)) {
        (HandleState::Ready(a), HandleState::Ready(b)) => assert!(Arc::ptr_eq(&a, &b)),
        _ => panic!("expected both ready"),
    }
}

#[test]
fn texture_manager_alone_dedups() {
    let mut t: TextureManager<u8> = TextureManager::new();
    let (_, a) = t.get_async(&"x".to_string());
    let (h, b) = t.get_async(&"x".to_string());
    assert!(a && !b);
    t.complete(&"x".to_string(), Err(Arc::new(AssetError::InvalidData)));
    assert!(matches!(t.poll(&h), HandleState::Failed(_)));
}

#[test]
fn malformed_description_is_invalid_data() {
    let mut m = Manager::new(false);
    let (h, _) = m.get("bad.ron".to_string());
    assert!(m.finish_read(&h, FileOutcome::Malformed).is_none());
    match m.poll(&h) {
        HandleState::Failed(e) => assert!(matches!(*e, AssetError::InvalidData)),
        _ => panic!("expected a failure"),
    }
    match m.poll_description(&h) {
        HandleState::Failed(e) => assert!(matches!(*e, AssetError::InvalidData)),
        _ => panic!("expected a failure"),
    }
}

#[test]
fn unreadable_file_is_other_error() {
    let mut m = Manager::new(false);
    let (h, _) = m.get("locked.ron".to_string());
    m.finish_read(&h, FileOutcome::Unreadable("permission denied".to_string()));
    match m.poll(&h) {
        HandleState::Failed(e) => match &*e {
            AssetError::OtherError(s) => assert_eq!(s, "permission denied"),
            _ => panic!("expected OtherError"),
        },
        _ => panic!("expected a failure"),
    }
    assert!(matches!(m.poll_description(&h), HandleState::Pending));
}

#[test]
fn two_texture_description_resolves_exactly() {
    let mut m = Manager::new(false);
    let (h, _) = m.get("unlit.ron".to_string());
    let desc = NewMaterialHandle::new(
        Some("main.png".to_string()),
        None,
        Some("normal.png".to_string()),
        None,
        Some(0.5f32.to_bits()),
        Some([0.1f32.to_bits(), 0.2f32.to_bits(), 0.3f32.to_bits(), 1.0f32.to_bits()]),
    );
    let desc = m.finish_read(&h, FileOutcome::Parsed(desc)).unwrap();
    assert!(matches!(m.poll(&h), HandleState::Pending));
    assert!(matches!(m.poll_description(&h), HandleState::Ready(_)));
    assert_eq!(desc.texture_paths(), vec!["main.png".to_string(), "normal.png".to_string()]);
    let states = resolve_textures(&mut m, &desc);
    let built = m.build(&desc, &states).unwrap();
    m.complete(&h, Ok(built));
    match m.poll(&h) {
        HandleState::Ready(d) => {
            assert_eq!(d.main_texture.as_deref().map(|s| s.as_str()), Some("gpu:main.png"));
            assert_eq!(d.normal_texture.as_deref().map(|s| s.as_str()), Some("gpu:normal.png"));
            assert!(d.roughness_texture.is_none());
            assert_eq!(d.material_kind, MaterialKind::Unlit);
            assert_eq!(
                d.uniform.color,
                [0.1f32.to_bits(), 0.2f32.to_bits(), 0.3f32.to_bits(), 1.0f32.to_bits()]
            );
            assert_eq!(d.uniform.info, [0.5f32.to_bits(), 0, 0, 0]);
            assert!(d.gpu.is_none());
        },
        _ => panic!("expected a resolved material"),
    }
}

#[test]
fn handles_on_one_identifier_converge() {
    let mut m = Manager::new(false);
    let (h1, _) = m.get("shared.ron".to_string());
    let (h2, _) = m.get("shared.ron".to_string());
    let desc = m.finish_read(&h1, FileOutcome::Parsed(pbr_description())).unwrap();
    let states = resolve_textures(&mut m, &desc);
    let built = m.build(&desc, &states).unwrap();
    m.complete(&h1, Ok(built));
    let h3 = h2.share();
    match (m.poll(&h1), m.poll(&h2), m.poll(&h3)) {
        (HandleState::Ready(a), HandleState::Ready(b), HandleState::Ready(c)) => {
            assert!(Arc::ptr_eq(&a, &b));
            assert!(Arc::ptr_eq(&a, &c));
        },
        _ => panic!("expected all ready"),
    }
}

#[test]
fn insert_reads_nothing_and_resolves() {
    let mut m = Manager::new(true);
    let (h1, desc1) = m.insert(pbr_description());
    let (h2, _) = m.insert(pbr_description());
    assert!(!(h1.handle_id == h2.handle_id));
    assert!(matches!(m.poll(&h1), HandleState::Pending));
    assert!(matches!(m.poll_description(&h1), HandleState::Ready(_)));
    let (_, start) = m.get("unrelated.ron".to_string());
    assert!(start);
    let states = resolve_textures(&mut m, &desc1);
    let mut built = m.build(&desc1, &states).unwrap();
    assert_eq!(built.material_kind, MaterialKind::PBR);
    let (main, normal, rough) = built.bind_group_textures().unwrap();
    assert_eq!(main.as_str(), "gpu:main.png");
    assert_eq!(normal.as_str(), "gpu:normal.png");
    assert_eq!(rough.as_str(), "gpu:rough.png");
    assert_eq!(built.uniform.info, [0.75f32.to_bits(), 0.25f32.to_bits(), 0, 0]);
    built.attach(7);
    m.complete(&h1, Ok(built));
    match m.poll(&h1) {
        HandleState::Ready(d) => assert_eq!(d.gpu, Some(7)),
        _ => panic!("expected a resolved material"),
    }
}

#[test]
fn failed_texture_is_missing_dependency() {
    let mut m = Manager::new(false);
    let desc = pbr_description();
    let (h, start) = m.get_texture(&"main.png".to_string());
    assert!(start);
    m.texture_loaded(&"main.png".to_string(), Err(Arc::new(AssetError::FileNotFound)));
    let states = vec![
        m.poll_texture(&h),
        HandleState::Ready(Arc::new("r".to_string())),
        HandleState::Ready(Arc::new("n".to_string())),
    ];
    assert!(matches!(m.build(&desc, &states), Err(AssetError::MissingDependency)));
}

#[test]
fn bind_group_without_its_textures_is_missing_dependency() {
    let mut with_layout = Manager::new(true);
    let without_layout = Manager::new(false);
    let desc = NewMaterialHandle::new(Some("main.png".to_string()), None, None, None, None, None);
    let states = resolve_textures(&mut with_layout, &desc);
    assert!(matches!(with_layout.build(&desc, &states), Err(AssetError::MissingDependency)));
    let d = without_layout.build(&desc, &states).unwrap();
    assert_eq!(d.material_kind, MaterialKind::Unknown);
    assert!(matches!(d.bind_group_textures(), Err(AssetError::MissingDependency)));
}

#[test]
fn material_kind_follows_declared_fields() {
    assert_eq!(MaterialKind::from(&pbr_description()), MaterialKind::PBR);
    let unlit = NewMaterialHandle::new(Some("m".to_string()), None, None, None, None, Some([0, 0, 0, 0]));
    assert_eq!(MaterialKind::from(&unlit), MaterialKind::Unlit);
    let none = NewMaterialHandle::new(None, None, None, None, None, None);
    assert_eq!(MaterialKind::from(&none), MaterialKind::Unknown);
    let partial = NewMaterialHandle::new(
        Some("m".to_string()),
        Some("r".to_string()),
        Some("n".to_string()),
        Some(0),
        None,
        None,
    );
    assert_eq!(MaterialKind::from(&partial), MaterialKind::Unknown);
}

#[test]
fn absent_parameters_give_zero_words() {
    let none = NewMaterialHandle::new(None, None, None, None, None, None);
    let u = none.uniform();
    assert_eq!(u.color, [0, 0, 0, 0]);
    assert_eq!(u.info, [0, 0, 0, 0]);
    assert!(none.texture_paths().is_empty());
    let states: Vec<HandleState<u8>> = Vec::new();
    let d: NewMaterialData<u8, ()> = none.load_data(&states).unwrap();
    assert!(d.main_texture.is_none());
}

#[test]
fn cache_overwrites_and_reads_back() {
    let mut c: AssetCache<u32> = AssetCache::new();
    let a = Identifier::Path("a".to_string());
    let t = Identifier::Token(3);
    assert!(!c.contains(&a));
    c.insert(a.duplicate(), Ok(Arc::new(1)));
    c.insert(t.duplicate(), Err(Arc::new(AssetError::InvalidData)));
    c.insert(a.duplicate(), Ok(Arc::new(2)));
    assert!(c.contains(&a) && c.contains(&t));
    assert!(!c.contains(&Identifier::Token(4)));
    match c.get(&a) {
        Some(Ok(v)) => assert_eq!(*v, 2),
        _ => panic!("expected a value"),
    }
    let h = AssetHandle::new(Identifier::Path("a".to_string()));
    assert!(matches!(h.poll(&c), HandleState::Ready(_)));
    assert!(matches!(AssetHandle::new(t).poll(&c), HandleState::Failed(_)));
    assert!(c.get(&Identifier::Path("b".to_string())).is_none());
}

#[test]
fn identifiers_compare_by_kind_and_value() {
    assert!(Identifier::Path("x".to_string()) == Identifier::Path("x".to_string()));
    assert!(!(Identifier::Path("1".to_string()) == Identifier::Token(1)));
    assert!(Identifier::Token(1).same_as(&Identifier::Token(1)));
    let mut f = InFlight::new();
    f.add(Identifier::Token(1));
    f.add(Identifier::Path("p".to_string()));
    f.add(Identifier::Token(1));
    assert!(f.contains(&Identifier::Token(1)));
    f.remove(&Identifier::Token(1));
    assert!(!f.contains(&Identifier::Token(1)));
    assert!(f.contains(&Identifier::Path("p".to_string())));
}

#[test]
fn unlit_vertex_attributes_are_packed() {
    let attrs = UnlitPipelineDesc.vertex_attributes();
    let offsets: Vec<u64> = attrs.iter().map(|a| a.offset).collect();
    assert_eq!(offsets, vec![0, 12, 24, 32]);
    assert_eq!(attrs[2].format, VertexFormat::Float2);
    assert_eq!(attrs[3].shader_location, 3);
}

#[test]
fn packed_attributes_follow_format_sizes() {
    let attrs = packed_attributes(&vec![VertexFormat::Float4, VertexFormat::Float2, VertexFormat::Float3]);
    assert_eq!(attrs.len(), 3);
    assert_eq!(attrs[1].offset, 16);
    assert_eq!(attrs[2].offset, 24);
    assert!(packed_attributes(&Vec::new()).is_empty());
    assert_eq!(VertexFormat::Float3.size(), 12);
}

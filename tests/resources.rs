use engine::resources::{ResourceId, ResourceManager, TexOptions};
use engine::texture_id::TextureId;
use std::rc::Rc;

#[test]
fn tex_options_start_disabled() {
    let o = TexOptions::build();
    assert!(!o.smooth);
    assert!(!o.repeated);
    assert_eq!(o, TexOptions::default());
}

#[test]
fn tex_options_builder_chain() {
    let mut o = TexOptions::build();
    o.repeated().smooth();
    assert!(o.smooth);
    assert!(o.repeated);

    let mut p = TexOptions::build();
    p.smooth();
    assert!(p.smooth);
    assert!(!p.repeated);
}

#[test]
fn texture_ids_are_distinct() {
    let ids = [TextureId::Layer0, TextureId::Layer1, TextureId::Layer2, TextureId::Spaceship0];
    assert_eq!(ids.iter().map(|i| i.resource_id()).collect::<Vec<_>>(), vec![0, 1, 2, 3]);
}

#[test]
fn manager_add_then_get() {
    let mut m: ResourceManager<Rc<String>> = ResourceManager::new();
    assert!(m.get(TextureId::Layer0).is_none());
    assert!(!m.add(TextureId::Layer0, Rc::new("clouds".to_string())));
    assert!(!m.add(TextureId::Spaceship0, Rc::new("ship".to_string())));
    assert_eq!(m.get(TextureId::Layer0).unwrap().as_str(), "clouds");
    assert_eq!(m.get(TextureId::Spaceship0).unwrap().as_str(), "ship");
    assert!(m.get(TextureId::Layer1).is_none());
}

#[test]
fn manager_add_replaces() {
    let mut m: ResourceManager<u32> = ResourceManager::new();
    assert!(!m.add(TextureId::Layer2, 7));
    assert!(m.add(TextureId::Layer2, 9));
    assert_eq!(m.get(TextureId::Layer2), Some(9));
}

#[test]
fn manager_shares_resource() {
    let mut m: ResourceManager<Rc<String>> = ResourceManager::new();
    let tex = Rc::new("planet".to_string());
    m.add(TextureId::Layer1, tex.clone());
    let a = m.get(TextureId::Layer1).unwrap();
    let b = m.get(TextureId::Layer1).unwrap();
    assert!(Rc::ptr_eq(&a, &tex));
    assert!(Rc::ptr_eq(&b, &tex));
    assert_eq!(Rc::strong_count(&tex), 4);
}

use renderer::uniforms::UniformCache;

#[test]
fn unknown_uniform_is_not_found() {
    let cache = UniformCache::new();
    assert_eq!(cache.lookup(1, "model"), None);
}

#[test]
fn locations_are_kept_per_program_and_name() {
    let mut cache = UniformCache::new();
    cache.insert(1, "model", 4);
    cache.insert(1, "view", 5);
    cache.insert(2, "model", 9);
    assert_eq!(cache.lookup(1, "model"), Some(4));
    assert_eq!(cache.lookup(1, "view"), Some(5));
    assert_eq!(cache.lookup(2, "model"), Some(9));
    assert_eq!(cache.lookup(2, "view"), None);
}

#[test]
fn inserting_again_replaces_the_location() {
    let mut cache = UniformCache::new();
    cache.insert(3, "pointLights[0].position", 7);
    cache.insert(3, "pointLights[0].position", 8);
    assert_eq!(cache.lookup(3, "pointLights[0].position"), Some(8));
}

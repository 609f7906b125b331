use upatch_build::package::{PackageBuildRoot, RpmBuilder};

#[test]
fn rpm_builder_keeps_its_build_root() {
    let root = PackageBuildRoot {
        path: String::from("/tmp/build"),
        sources: String::from("/tmp/build/SOURCES"),
        specs: String::from("/tmp/build/SPECS"),
        srpms: String::from("/tmp/build/SRPMS"),
        rpms: String::from("/tmp/build/RPMS"),
    };
    let builder = RpmBuilder::new(root);
    assert_eq!(builder.build_root.path, "/tmp/build");
    assert_eq!(builder.build_root.sources, "/tmp/build/SOURCES");
    assert_eq!(builder.build_root.specs, "/tmp/build/SPECS");
    assert_eq!(builder.build_root.srpms, "/tmp/build/SRPMS");
    assert_eq!(builder.build_root.rpms, "/tmp/build/RPMS");
}

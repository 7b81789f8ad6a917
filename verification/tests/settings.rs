use fog_space::ext::ToPathBufs;
use fog_space::handlers::similar_image::{join_with_commas, similar_images_settings};
use fog_space::models::common_params::{CommonParams, DeleteMethodRef, SimilarityPresetDef};
use fog_space::routers::similar_image::SearchParams;
use image::imageops::FilterType;
use image_hasher::HashAlg;
use std::path::PathBuf;

fn strings(items: &[&str]) -> Vec<String> {
    items.iter().map(|s| s.to_string()).collect()
}

fn request(hash_size: u32) -> SearchParams {
    SearchParams {
        common_items: CommonParams {
            thread_number: 4,
            directories: strings(&["/photos", "/tmp/a b"]),
            excluded_directories: Some(strings(&["/photos/raw"])),
            excluded_items: Some(strings(&["*.tmp"])),
            allowed_extensions: Some(strings(&["jpg", "png", "webp"])),
            is_recursive: true,
            use_cache: false,
        },
        minimal_file_size: 16384,
        maximal_file_size: u64::MAX,
        similarity_preset: SimilarityPresetDef::High,
        delete_method: DeleteMethodRef::NoDeletion,
        allow_hard_links: false,
        dry_run: true,
        ignore_same_size: true,
        hash_algorithm: HashAlg::Gradient,
        image_filter: FilterType::Lanczos3,
        hash_size,
    }
}

#[test]
fn paths_from_strings() {
    let paths = strings(&["/a", "relative/b", ""]).to_pathbufs();
    assert_eq!(
        paths,
        vec![PathBuf::from("/a"), PathBuf::from("relative/b"), PathBuf::from("")]
    );
    assert!(Vec::<String>::new().to_pathbufs().is_empty());
}

#[test]
fn join_with_commas_cases() {
    assert_eq!(join_with_commas(&strings(&[])), "");
    assert_eq!(join_with_commas(&strings(&["jpg"])), "jpg");
    assert_eq!(join_with_commas(&strings(&["jpg", "png", "gif"])), "jpg,png,gif");
    assert_eq!(join_with_commas(&strings(&["", ""])), ",");
}

#[test]
fn settings_from_request() {
    let s = similar_images_settings(request(16));
    assert_eq!(s.similarity_preset, SimilarityPresetDef::High);
    assert_eq!(s.hash_size, 16);
    assert_eq!(s.hash_algorithm, HashAlg::Gradient);
    assert_eq!(s.image_filter, FilterType::Lanczos3);
    assert!(s.exclude_images_with_same_size);
    assert!(s.ignore_hard_links);
    assert_eq!(s.thread_number, 4);
    assert_eq!(s.included_directories, vec![PathBuf::from("/photos"), PathBuf::from("/tmp/a b")]);
    assert_eq!(s.excluded_directories, Some(vec![PathBuf::from("/photos/raw")]));
    assert_eq!(s.excluded_items, Some(strings(&["*.tmp"])));
    assert!(s.recursive_search);
    assert_eq!(s.allowed_extensions, Some("jpg,png,webp".to_string()));
    assert!(!s.use_cache);
    assert_eq!(s.minimal_file_size, 16384);
    assert_eq!(s.maximal_file_size, u64::MAX);
    assert_eq!(s.delete_method, DeleteMethodRef::NoDeletion);
    assert!(s.dry_run);
}

#[test]
fn settings_cut_hash_size_to_a_byte() {
    assert_eq!(similar_images_settings(request(64)).hash_size, 64);
    assert_eq!(similar_images_settings(request(256)).hash_size, 0);
    assert_eq!(similar_images_settings(request(300)).hash_size, 44);
}

#[test]
fn settings_allow_hard_links() {
    let mut req = request(8);
    req.allow_hard_links = true;
    req.common_items.excluded_directories = None;
    req.common_items.allowed_extensions = None;
    let s = similar_images_settings(req);
    assert!(!s.ignore_hard_links);
    assert_eq!(s.excluded_directories, None);
    assert_eq!(s.allowed_extensions, None);
}

#[test]
fn joined_extensions_split_back() {
    let exts = strings(&["jpg", "png", "", "tiff"]);
    let joined = join_with_commas(&exts);
    let back: Vec<String> = joined.split(',').map(|s| s.to_string()).collect();
    assert_eq!(back, exts);
}

#[test]
fn thread_outcomes() {
    assert_eq!(fog_space::handlers::similar_image::thread_outcome(Some(3)).ok(), Some(3));
    match fog_space::handlers::similar_image::thread_outcome::<u8>(None) {
        Ok(_) => panic!("expected an error"),
        Err(e) => {
            assert_eq!(e.code(), 500);
            assert_eq!(e.message(), "calculate_thread Join Error!");
        }
    }
}

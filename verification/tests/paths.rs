use nexustui::path::{extension, file_name};
use std::path::Path;

#[test]
fn file_name_and_extension_match_std_path() {
    let samples = [
        "", "/", ".", "..", "./", "a", "a.txt", "/home/u/pic.JPG", "dir/", "dir/.", "dir/..",
        "a/./b", ".bashrc", "x/.bashrc", "archive.tar.gz", "trailing.", "..x", "a//b//",
        "/sdcard/Download/NexusTUI/clip.mp4", "name with space.png",
    ];
    for s in samples {
        let p = Path::new(s);
        assert_eq!(
            file_name(s),
            p.file_name().map(|n| n.to_str().unwrap().to_string()),
            "file name of {:?}",
            s
        );
        assert_eq!(
            extension(s),
            p.extension().map(|n| n.to_str().unwrap().to_string()),
            "extension of {:?}",
            s
        );
    }
}

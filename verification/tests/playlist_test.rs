use lumawave::player::Playlist;
use std::path::{Path, PathBuf};

fn paths() -> Vec<PathBuf> {
    vec![
        PathBuf::from("a.mp3"),
        PathBuf::from("b.wav"),
        PathBuf::from("c.flac"),
    ]
}

#[test]
fn add_and_select() {
    let mut list = Playlist::default();
    list.add_many(paths());
    assert_eq!(list.len(), 3);
    assert_eq!(list.select(1).map(|p| p.as_path()), Some(Path::new("b.wav")));
    assert_eq!(list.current().map(|p| p.as_path()), Some(Path::new("b.wav")));
    assert_eq!(list.select(9), None);
}

#[test]
fn next_and_prev_navigate() {
    let mut list = Playlist::default();
    list.add_many(paths());
    assert!(list.current().is_none());
    assert_eq!(list.next().map(|p| p.as_path()), Some(Path::new("a.mp3")));
    assert_eq!(list.next().map(|p| p.as_path()), Some(Path::new("b.wav")));
    assert_eq!(list.next().map(|p| p.as_path()), Some(Path::new("c.flac")));
    assert_eq!(list.next(), None, "到末尾不再前进");
    assert_eq!(list.prev().map(|p| p.as_path()), Some(Path::new("b.wav")));
    assert_eq!(list.prev().map(|p| p.as_path()), Some(Path::new("a.mp3")));
    assert_eq!(list.prev(), None, "到开头不再后退");
}

#[test]
fn next_on_empty_playlist_returns_none() {
    let mut list = Playlist::default();
    assert!(list.is_empty());
    assert!(list.next().is_none());
    assert!(list.prev().is_none());
    assert!(list.current().is_none());
}

#[test]
fn clear_resets_everything() {
    let mut list = Playlist::default();
    list.add_many(paths());
    list.select(2);
    list.clear();
    assert!(list.is_empty());
    assert!(list.current().is_none());
    assert!(list.next().is_none());
}

#[test]
fn prev_undoes_next_and_next_undoes_prev() {
    let mut list = Playlist::default();
    list.add_many(paths());
    list.select(1);
    list.next();
    assert_eq!(list.prev().map(|p| p.as_path()), Some(Path::new("b.wav")));
    assert_eq!(list.current().map(|p| p.as_path()), Some(Path::new("b.wav")));
    list.prev();
    assert_eq!(list.next().map(|p| p.as_path()), Some(Path::new("b.wav")));
}

#[test]
fn add_returns_position_and_keeps_selection() {
    let mut list = Playlist::default();
    assert_eq!(list.add(PathBuf::from("x.ogg")), 0);
    list.select(0);
    assert_eq!(list.add(PathBuf::from("x.ogg")), 1, "duplicates are appended again");
    assert_eq!(list.len(), 2);
    assert_eq!(list.current().map(|p| p.as_path()), Some(Path::new("x.ogg")));
    assert_eq!(list.select(1).map(|p| p.as_path()), Some(Path::new("x.ogg")));
    assert_eq!(list.next(), None);
    assert_eq!(list.current().map(|p| p.as_path()), Some(Path::new("x.ogg")));
}

#[test]
fn next_walks_every_file_in_order() {
    let mut list = Playlist::default();
    list.add_many(paths());
    let mut seen = Vec::new();
    while let Some(p) = list.next() {
        seen.push(p.to_path_buf());
    }
    assert_eq!(seen, paths());
    assert_eq!(list.current().map(|p| p.as_path()), Some(Path::new("c.flac")));
}

#[test]
fn clone_keeps_files_and_selection() {
    let mut list = Playlist::default();
    list.add_many(paths());
    list.next();
    list.next();
    let mut copy = list.clone();
    assert_eq!(copy.len(), list.len());
    assert_eq!(copy.current(), list.current());
    copy.next();
    assert_ne!(copy.current(), list.current());
}

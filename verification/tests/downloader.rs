use browser_core::downloader::DownloadManager;
use browser_core::downloader::DownloadTask;

fn is_v4_uuid(s: &str) -> bool {
    let cs: Vec<char> = s.chars().collect();
    if cs.len() != 36 {
        return false;
    }
    for (i, c) in cs.iter().enumerate() {
        if i == 8 || i == 13 || i == 18 || i == 23 {
            if *c != '-' {
                return false;
            }
        } else if !(c.is_ascii_digit() || ('a'..='f').contains(c)) {
            return false;
        }
    }
    cs[14] == '4' && "89ab".contains(cs[19])
}

#[test]
fn new_manager_is_empty() {
    let m = DownloadManager::new();
    assert!(m.get_tasks().is_empty());
}

#[test]
fn add_task_queues_a_pending_task() {
    let mut m = DownloadManager::new();
    let id = m.add_task("https://x.org/v.mp4", "v.mp4");
    assert!(is_v4_uuid(&id), "{id}");
    let tasks = m.get_tasks();
    assert_eq!(tasks.len(), 1);
    assert_eq!(tasks[0].id, id);
    assert_eq!(tasks[0].url, "https://x.org/v.mp4");
    assert_eq!(tasks[0].filename, "v.mp4");
    assert_eq!(tasks[0].total_size, 0);
    assert_eq!(tasks[0].downloaded_size, 0);
    assert_eq!(tasks[0].status, "Pending");
}

#[test]
fn tasks_keep_their_order_and_ids_differ() {
    let mut m = DownloadManager::new();
    let a = m.add_task("https://a/1", "1");
    let b = m.add_task("https://b/2", "2");
    assert_ne!(a, b);
    let tasks = m.get_tasks();
    assert_eq!(tasks.len(), 2);
    assert_eq!(tasks[0].id, a);
    assert_eq!(tasks[1].id, b);
    assert_eq!(tasks[1].filename, "2");
}

#[test]
fn cloned_task_is_equal_field_by_field() {
    let t = DownloadTask {
        id: "i".to_string(),
        url: "u".to_string(),
        filename: "f".to_string(),
        total_size: 10,
        downloaded_size: 3,
        status: "Downloading".to_string(),
    };
    let c = t.clone();
    assert_eq!(c.id, "i");
    assert_eq!(c.url, "u");
    assert_eq!(c.filename, "f");
    assert_eq!(c.total_size, 10);
    assert_eq!(c.downloaded_size, 3);
    assert_eq!(c.status, "Downloading");
}

#[test]
fn add_task_with_id_appends_exactly_that_task() {
    let mut m = DownloadManager::new();
    m.add_task_with_id("first".to_string(), "https://a/x.zip", "x.zip");
    m.add_task_with_id("second".to_string(), "https://b/y", "y");
    let tasks = m.get_tasks();
    assert_eq!(tasks.len(), 2);
    assert_eq!(tasks[0].id, "first");
    assert_eq!(tasks[0].url, "https://a/x.zip");
    assert_eq!(tasks[1].id, "second");
    assert_eq!(tasks[1].status, "Pending");
}

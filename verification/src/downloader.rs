//! The download queue: tasks registered for later transfer.
use vstd::prelude::*;

verus! {

broadcast use vstd::string::group_string_axioms;

/// A lowercase hexadecimal digit.
pub open spec fn is_lower_hex(c: char) -> bool {
    ('0' <= c && c <= '9') || ('a' <= c && c <= 'f')
}

/// The hyphenated form of a random (version 4, RFC 9562 variant) UUID:
/// `xxxxxxxx-xxxx-4xxx-Nxxx-xxxxxxxxxxxx` in lowercase hex, `N` one of
/// `8`, `9`, `a`, `b`.
pub open spec fn is_v4_uuid_text(s: Seq<char>) -> bool {
    &&& s.len() == 36
    &&& forall|i: int|
        0 <= i < 36 ==> if i == 8 || i == 13 || i == 18 || i == 23 {
            #[trigger] s[i] == '-'
        } else {
            is_lower_hex(s[i])
        }
    &&& s[14] == '4'
    &&& (s[19] == '8' || s[19] == '9' || s[19] == 'a' || s[19] == 'b')
}

/// A fresh random identifier: `uuid::Uuid::new_v4()` in its `Display`
/// (hyphenated, lowercase) form. The value is random; the contract states
/// only its shape, which the crate's formatting code fixes.
#[verifier::external_body]
fn new_task_id() -> (id: String)
    ensures
        is_v4_uuid_text(id@),
{
    uuid::Uuid::new_v4().to_string()
}

/// One queued download.
pub struct DownloadTask {
    pub id: String,
    pub url: String,
    pub filename: String,
    pub total_size: u64,
    pub downloaded_size: u64,
    /// "Pending", "Downloading", "Completed" or "Failed".
    pub status: String,
}

impl Clone for DownloadTask {
    fn clone(&self) -> (copy: Self)
        ensures
            copy == *self,
    {
        DownloadTask {
            id: self.id.clone(),
            url: self.url.clone(),
            filename: self.filename.clone(),
            total_size: self.total_size,
            downloaded_size: self.downloaded_size,
            status: self.status.clone(),
        }
    }
}

/// The statuses a download task can have.
pub open spec fn is_known_status(status: Seq<char>) -> bool {
    ||| status == "Pending"@
    ||| status == "Downloading"@
    ||| status == "Completed"@
    ||| status == "Failed"@
}

/// Every task of `tasks` has one of the known statuses.
pub open spec fn all_statuses_known(tasks: Seq<DownloadTask>) -> bool {
    forall|i: int| 0 <= i < tasks.len() ==> is_known_status(#[trigger] tasks[i].status@)
}

/// The task that `add_task` registers: nothing transferred yet, size
/// unknown, status "Pending".
pub open spec fn is_pending_task(t: DownloadTask, id: Seq<char>, url: Seq<char>, filename: Seq<char>) -> bool {
    &&& t.id@ == id
    &&& t.url@ == url
    &&& t.filename@ == filename
    &&& t.total_size == 0
    &&& t.downloaded_size == 0
    &&& t.status@ == "Pending"@
}

/// `after` is `before` with one more task at its end: a pending download
/// of `url` into `filename` under `id`.
pub open spec fn appends_pending_task(
    before: Seq<DownloadTask>,
    after: Seq<DownloadTask>,
    id: Seq<char>,
    url: Seq<char>,
    filename: Seq<char>,
) -> bool {
    &&& after.len() == before.len() + 1
    &&& after.subrange(0, before.len() as int) == before
    &&& is_pending_task(after.last(), id, url, filename)
}

/// The queue of download tasks, in the order they were added.
pub struct DownloadManager {
    tasks: Vec<DownloadTask>,
}

impl View for DownloadManager {
    type V = Seq<DownloadTask>;

    closed spec fn view(&self) -> Seq<DownloadTask> {
        self.tasks@
    }
}

impl DownloadManager {
    /// Every queued task has one of the known statuses.
    #[verifier::type_invariant]
    spec fn statuses_known(self) -> bool {
        all_statuses_known(self.tasks@)
    }

    /// An empty queue.
    pub fn new() -> (m: Self)
        ensures
            m@ == Seq::<DownloadTask>::empty(),
    {
        DownloadManager { tasks: Vec::new() }
    }

    /// Registers a pending download of `url` into `filename` under a fresh
    /// random id, which it returns. The new task goes to the end of the
    /// queue; the tasks already there are unchanged.
    pub fn add_task(&mut self, url: &str, filename: &str) -> (id: String)
        ensures
            is_v4_uuid_text(id@),
            appends_pending_task(old(self)@, final(self)@, id@, url@, filename@),
    {
        let id = new_task_id();
        self.add_task_with_id(id.clone(), url, filename);
        id
    }

    /// Registers a pending download of `url` into `filename` under `id`, at
    /// the end of the queue.
    pub fn add_task_with_id(&mut self, id: String, url: &str, filename: &str)
        ensures
            appends_pending_task(old(self)@, final(self)@, id@, url@, filename@),
    {
        proof {
            use_type_invariant(&*self);
            reveal_strlit("Pending");
        }
        let task = DownloadTask {
            id,
            url: url.to_owned(),
            filename: filename.to_owned(),
            total_size: 0,
            downloaded_size: 0,
            status: "Pending".to_owned(),
        };
        let mut tasks: Vec<DownloadTask> = Vec::new();
        std::mem::swap(&mut tasks, &mut self.tasks);
        let ghost before = tasks@;
        tasks.push(task);
        assert(tasks@.subrange(0, before.len() as int) =~= before);
        self.tasks = tasks;
    }

    /// A copy of the queue, in order; every task in it has a known status.
    pub fn get_tasks(&self) -> (tasks: Vec<DownloadTask>)
        ensures
            tasks@ == self@,
            all_statuses_known(tasks@),
    {
        proof {
            use_type_invariant(self);
        }
        let mut out: Vec<DownloadTask> = Vec::new();
        for i in 0..self.tasks.len()
            invariant
                out@ == self.tasks@.take(i as int),
        {
            out.push(self.tasks[i].clone());
            assert(self.tasks@.take(i + 1) =~= self.tasks@.take(i as int).push(self.tasks@[i as int]));
        }
        assert(self.tasks@.take(self.tasks.len() as int) =~= self.tasks@);
        out
    }
}

/// Adding a task keeps every task that was queued before, at its place.
pub proof fn lemma_add_task_keeps_queue(
    before: Seq<DownloadTask>,
    after: Seq<DownloadTask>,
    id: Seq<char>,
    url: Seq<char>,
    filename: Seq<char>,
    i: int,
)
    requires
        appends_pending_task(before, after, id, url, filename),
        0 <= i < before.len(),
    ensures
        after[i] == before[i],
{
    assert(after.subrange(0, before.len() as int)[i] == after[i]);
}

/// The queue of a manager made by `new` after `n` calls of `add_task`:
/// `states[k]` is the queue after the first `k` calls, the `k`-th of which
/// was given `urls[k]` and `filenames[k]` and returned `ids[k]`. The final
/// queue holds exactly one pending task per call, in call order.
pub proof fn lemma_queue_holds_added_tasks(
    states: Seq<Seq<DownloadTask>>,
    ids: Seq<Seq<char>>,
    urls: Seq<Seq<char>>,
    filenames: Seq<Seq<char>>,
)
    requires
        states.len() == ids.len() + 1,
        urls.len() == ids.len(),
        filenames.len() == ids.len(),
        states[0] == Seq::<DownloadTask>::empty(),
        forall|k: int|
            0 <= k < ids.len() ==> #[trigger] appends_pending_task(
                states[k],
                states[k + 1],
                ids[k],
                urls[k],
                filenames[k],
            ),
    ensures
        states.last().len() == ids.len(),
        forall|k: int|
            0 <= k < ids.len() ==> is_pending_task(
                #[trigger] states.last()[k],
                ids[k],
                urls[k],
                filenames[k],
            ),
    decreases ids.len(),
{
    let n = ids.len();
    if n > 0 {
        let m = (n - 1) as int;
        assert(appends_pending_task(states[m], states[m + 1], ids[m], urls[m], filenames[m]));
        lemma_queue_holds_added_tasks(
            states.take(n as int),
            ids.take(m),
            urls.take(m),
            filenames.take(m),
        );
        assert(states.take(n as int).last() == states[m]);
        assert forall|k: int| 0 <= k < n implies is_pending_task(
            #[trigger] states.last()[k],
            ids[k],
            urls[k],
            filenames[k],
        ) by {
            if k < m {
                assert(states.last().subrange(0, m)[k] == states.last()[k]);
                assert(states.take(n as int).last()[k] == states[m][k]);
                assert(is_pending_task(states.take(n as int).last()[k], ids.take(m)[k], urls.take(m)[k], filenames.take(m)[k]));
            }
        }
    }
}

} // verus!

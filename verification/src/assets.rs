//! The local mirror of the catalog's images: where an image is kept, where it
//! is fetched from, how one download is retried, and how many run at once.
//!
//! Nothing here touches the network or the disk. A download is a small
//! machine: the caller asks it what to do, does it, and reports what happened.

use vstd::prelude::*;
use vstd::string::StringExecFns;

use crate::text::{pairs, texts};

verus! {

/// The directory of the mirror, inside the application's data directory.
pub const ASSETS_DIR: &'static str = "assets";

pub const COVER_DIR: &'static str = "covers";

pub const ARTWORK_DIR: &'static str = "artworks";

/// Where the image server keeps its images.
pub const IMAGE_URL: &'static str = "https://images.igdb.com/igdb/image/upload/";

/// The size in which covers are fetched.
pub const COVER_SIZE: &'static str = "t_cover_small";

/// The size in which artworks are fetched.
pub const ARTWORK_SIZE: &'static str = "t_1080p";

/// The extension of a mirrored image.
pub const IMAGE_EXTENSION: &'static str = ".jpg";

/// The extension of an image that is being written.
pub const PARTIAL_EXTENSION: &'static str = ".tmp";

/// How often one image is fetched before it is given up.
pub const MAX_ATTEMPTS: u32 = 3;

/// How many downloads of one batch run at the same time, at most.
pub const MAX_CONCURRENT: usize = 5;

/// The two kinds of image.
#[derive(Clone, Copy, Debug, PartialEq, Eq, Structural)]
pub enum AssetKind {
    Cover,
    Artwork,
}

impl AssetKind {
    /// The subdirectory of the mirror that holds the images of this kind.
    pub open spec fn dir(self) -> Seq<char> {
        match self {
            AssetKind::Cover => COVER_DIR@,
            AssetKind::Artwork => ARTWORK_DIR@,
        }
    }

    /// The size in which the images of this kind are fetched.
    pub open spec fn size(self) -> Seq<char> {
        match self {
            AssetKind::Cover => COVER_SIZE@,
            AssetKind::Artwork => ARTWORK_SIZE@,
        }
    }

    /// Executable form of [`AssetKind::dir`].
    pub fn dir_name(&self) -> (s: &'static str)
        ensures
            s@ == self.dir(),
    {
        match self {
            AssetKind::Cover => COVER_DIR,
            AssetKind::Artwork => ARTWORK_DIR,
        }
    }

    /// Executable form of [`AssetKind::size`].
    pub fn size_name(&self) -> (s: &'static str)
        ensures
            s@ == self.size(),
    {
        match self {
            AssetKind::Cover => COVER_SIZE,
            AssetKind::Artwork => ARTWORK_SIZE,
        }
    }
}

/// The directory of the images of `kind` in the mirror `assets_dir`.
pub open spec fn kind_dir(assets_dir: Seq<char>, kind: AssetKind) -> Seq<char> {
    assets_dir + seq!['/'] + kind.dir()
}

/// The file of the image `image_id` of `kind`, without its extension.
pub open spec fn image_stem(assets_dir: Seq<char>, kind: AssetKind, image_id: Seq<char>) -> Seq<
    char,
> {
    kind_dir(assets_dir, kind) + seq!['/'] + image_id
}

/// Where the image `image_id` of `kind` is kept: `{assets}/{kind}/{id}.jpg`.
pub open spec fn local_path(assets_dir: Seq<char>, kind: AssetKind, image_id: Seq<char>) -> Seq<
    char,
> {
    image_stem(assets_dir, kind, image_id) + IMAGE_EXTENSION@
}

/// Where the image is written while it is fetched: beside its final place,
/// with the extension `.tmp`.
pub open spec fn partial_path(assets_dir: Seq<char>, kind: AssetKind, image_id: Seq<char>) -> Seq<
    char,
> {
    image_stem(assets_dir, kind, image_id) + PARTIAL_EXTENSION@
}

/// Where the image `image_id` of `kind` is fetched from.
pub open spec fn image_url(kind: AssetKind, image_id: Seq<char>) -> Seq<char> {
    IMAGE_URL@ + kind.size() + seq!['/'] + image_id + IMAGE_EXTENSION@
}

/// The seconds to wait after the failed attempt number `attempt`, counted
/// from 0: one second, and twice as long after each further attempt.
pub open spec fn backoff_seconds(attempt: nat) -> nat
    decreases attempt,
{
    if attempt == 0 {
        1
    } else {
        2 * backoff_seconds((attempt - 1) as nat)
    }
}

/// Why an operation of the mirror failed.
#[derive(Debug, PartialEq, Eq)]
pub enum AssetError {
    /// A request to the image server failed; the text says how.
    Request(String),
    /// The file system refused an operation; the text says how.
    Filesystem(String),
    /// The image at this URL could not be fetched in three attempts.
    DownloadFailed(String),
}

/// What an [`AssetError`] stands for.
pub enum AssetErrorView {
    Request(Seq<char>),
    Filesystem(Seq<char>),
    DownloadFailed(Seq<char>),
}

impl View for AssetError {
    type V = AssetErrorView;

    open spec fn view(&self) -> AssetErrorView {
        match self {
            AssetError::Request(s) => AssetErrorView::Request(s@),
            AssetError::Filesystem(s) => AssetErrorView::Filesystem(s@),
            AssetError::DownloadFailed(s) => AssetErrorView::DownloadFailed(s@),
        }
    }
}

pub const REQUEST_FAILED: &'static str = "http request failed: ";

pub const FILESYSTEM_FAILED: &'static str = "filesystem error: ";

pub const DOWNLOAD_FAILED: &'static str = "failed to download ";

pub const AFTER_ATTEMPTS: &'static str = " after 3 attempts";

impl AssetError {
    /// The error in words.
    pub open spec fn message(self) -> Seq<char> {
        match self {
            AssetError::Request(s) => REQUEST_FAILED@ + s@,
            AssetError::Filesystem(s) => FILESYSTEM_FAILED@ + s@,
            AssetError::DownloadFailed(s) => DOWNLOAD_FAILED@ + s@ + AFTER_ATTEMPTS@,
        }
    }

    /// The error in words.
    pub fn to_string(&self) -> (s: String)
        ensures
            s@ == self.message(),
    {
        match self {
            AssetError::Request(e) => {
                let mut s = String::from_str(REQUEST_FAILED);
                s.append(e.as_str());
                s
            },
            AssetError::Filesystem(e) => {
                let mut s = String::from_str(FILESYSTEM_FAILED);
                s.append(e.as_str());
                s
            },
            AssetError::DownloadFailed(url) => {
                let mut s = String::from_str(DOWNLOAD_FAILED);
                s.append(url.as_str());
                s.append(AFTER_ATTEMPTS);
                s
            },
        }
    }
}

/// Where the download of one image stands.
#[derive(Clone, Copy, Debug, PartialEq, Eq, Structural)]
pub enum DownloadPhase {
    /// It is to be seen whether the image is in the mirror already.
    Check,
    /// The image is to be fetched into its partial file.
    Fetch,
    /// The partial file is to be renamed to the image's final name.
    Rename,
    /// The fetch or the rename failed; the partial file is to be removed.
    Cleanup,
    /// The next attempt is to be waited for.
    Wait,
    /// The image is in the mirror.
    Stored,
    /// Every attempt failed.
    GaveUp,
}

/// What happened to the last action of a download.
#[derive(Clone, Copy, Debug, PartialEq, Eq, Structural)]
pub enum DownloadEvent {
    /// The answer to [`DownloadAction::Probe`].
    Exists(bool),
    /// The action succeeded.
    Done,
    /// The action failed.
    Failed,
}

/// The phase and the attempt that follow when `event` comes in `phase`,
/// during the attempt number `attempt`.
///
/// An image that is there is not fetched. An attempt is a fetch into the
/// partial file and the rename of that file. Where either fails, the attempt
/// has failed: the partial file is removed, and then the next attempt is
/// waited for, or, after the last attempt, the image is given up.
pub open spec fn download_step(phase: DownloadPhase, attempt: u32, event: DownloadEvent) -> (
    DownloadPhase,
    u32,
) {
    match phase {
        DownloadPhase::Check => if event == DownloadEvent::Exists(true) {
            (DownloadPhase::Stored, attempt)
        } else {
            (DownloadPhase::Fetch, attempt)
        },
        DownloadPhase::Fetch => if event is Done {
            (DownloadPhase::Rename, attempt)
        } else {
            (DownloadPhase::Cleanup, attempt)
        },
        DownloadPhase::Rename => if event is Done {
            (DownloadPhase::Stored, attempt)
        } else {
            (DownloadPhase::Cleanup, attempt)
        },
        DownloadPhase::Cleanup => if attempt + 1 < MAX_ATTEMPTS {
            (DownloadPhase::Wait, attempt)
        } else {
            (DownloadPhase::GaveUp, attempt)
        },
        DownloadPhase::Wait => (DownloadPhase::Fetch, (attempt + 1) as u32),
        DownloadPhase::Stored => (DownloadPhase::Stored, attempt),
        DownloadPhase::GaveUp => (DownloadPhase::GaveUp, attempt),
    }
}

/// What the caller of a download is to do next.
#[derive(Debug, PartialEq, Eq)]
pub enum DownloadAction {
    /// See whether a file exists at `path`, and answer with
    /// [`DownloadEvent::Exists`].
    Probe { path: String },
    /// Fetch `url` and write all of the response to `partial_path`.
    Fetch { url: String, partial_path: String },
    /// Rename the file `from` to `to`.
    Rename { from: String, to: String },
    /// Remove the file at `path`; it may be missing.
    Remove { path: String },
    /// Wait for so many seconds.
    Sleep { seconds: u64 },
    /// Nothing more: the image id with its place in the mirror, or the reason
    /// why the image is not there.
    Finished(Result<(String, String), AssetError>),
}

/// What a [`DownloadAction`] stands for.
pub enum DownloadActionView {
    Probe { path: Seq<char> },
    Fetch { url: Seq<char>, partial_path: Seq<char> },
    Rename { from: Seq<char>, to: Seq<char> },
    Remove { path: Seq<char> },
    Sleep { seconds: u64 },
    Stored { image_id: Seq<char>, path: Seq<char> },
    Failed(AssetErrorView),
}

impl View for DownloadAction {
    type V = DownloadActionView;

    open spec fn view(&self) -> DownloadActionView {
        match self {
            DownloadAction::Probe { path } => DownloadActionView::Probe { path: path@ },
            DownloadAction::Fetch { url, partial_path } => DownloadActionView::Fetch {
                url: url@,
                partial_path: partial_path@,
            },
            DownloadAction::Rename { from, to } => DownloadActionView::Rename {
                from: from@,
                to: to@,
            },
            DownloadAction::Remove { path } => DownloadActionView::Remove { path: path@ },
            DownloadAction::Sleep { seconds } => DownloadActionView::Sleep { seconds: *seconds },
            DownloadAction::Finished(Ok((id, path))) => DownloadActionView::Stored {
                image_id: id@,
                path: path@,
            },
            DownloadAction::Finished(Err(e)) => DownloadActionView::Failed(e@),
        }
    }
}

/// The action of a download of the image `image_id` of `kind` into the mirror
/// `assets_dir` that stands in `phase`, during the attempt number `attempt`.
pub open spec fn download_action(
    assets_dir: Seq<char>,
    kind: AssetKind,
    image_id: Seq<char>,
    phase: DownloadPhase,
    attempt: u32,
) -> DownloadActionView {
    let target = local_path(assets_dir, kind, image_id);
    let partial = partial_path(assets_dir, kind, image_id);
    let url = image_url(kind, image_id);
    match phase {
        DownloadPhase::Check => DownloadActionView::Probe { path: target },
        DownloadPhase::Fetch => DownloadActionView::Fetch { url, partial_path: partial },
        DownloadPhase::Rename => DownloadActionView::Rename { from: partial, to: target },
        DownloadPhase::Cleanup => DownloadActionView::Remove { path: partial },
        DownloadPhase::Wait => DownloadActionView::Sleep {
            seconds: backoff_seconds(attempt as nat) as u64,
        },
        DownloadPhase::Stored => DownloadActionView::Stored { image_id, path: target },
        DownloadPhase::GaveUp => DownloadActionView::Failed(AssetErrorView::DownloadFailed(url)),
    }
}

/// The download of one image into the mirror.
#[derive(Debug)]
pub struct Download {
    assets_dir: String,
    kind: AssetKind,
    image_id: String,
    phase: DownloadPhase,
    attempt: u32,
}

impl Download {
    pub closed spec fn assets_dir(&self) -> Seq<char> {
        self.assets_dir@
    }

    pub closed spec fn kind(&self) -> AssetKind {
        self.kind
    }

    pub closed spec fn image_id(&self) -> Seq<char> {
        self.image_id@
    }

    pub closed spec fn phase(&self) -> DownloadPhase {
        self.phase
    }

    /// The number of the current attempt, counted from 0.
    pub closed spec fn attempt(&self) -> u32 {
        self.attempt
    }

    /// No more attempts are made than are allowed, and none is waited for
    /// after the last.
    pub open spec fn wf(&self) -> bool {
        &&& self.attempt() < MAX_ATTEMPTS
        &&& self.phase() is Wait ==> self.attempt() + 1 < MAX_ATTEMPTS
    }

    /// The download of the image `image_id` of `kind` into the mirror
    /// `assets_dir`, before its first step.
    pub fn new(assets_dir: &str, kind: AssetKind, image_id: String) -> (d: Download)
        ensures
            d.wf(),
            d.assets_dir() == assets_dir@,
            d.kind() == kind,
            d.image_id() == image_id@,
            d.phase() == DownloadPhase::Check,
            d.attempt() == 0,
    {
        Download {
            assets_dir: String::from_str(assets_dir),
            kind,
            image_id,
            phase: DownloadPhase::Check,
            attempt: 0,
        }
    }

    /// The step that is to be done next.
    pub fn current_phase(&self) -> (p: DownloadPhase)
        ensures
            p == self.phase(),
    {
        self.phase
    }

    /// The number of the current attempt, counted from 0.
    pub fn current_attempt(&self) -> (n: u32)
        ensures
            n == self.attempt(),
    {
        self.attempt
    }

    fn stem(&self) -> (s: String)
        ensures
            s@ == image_stem(self.assets_dir(), self.kind(), self.image_id()),
    {
        let mut s = self.assets_dir.clone();
        s.push('/');
        s.append(self.kind.dir_name());
        s.push('/');
        s.append(self.image_id.as_str());
        assert(s@ =~= image_stem(self.assets_dir(), self.kind(), self.image_id()));
        s
    }

    /// Where the image is kept.
    pub fn local_path(&self) -> (s: String)
        ensures
            s@ == local_path(self.assets_dir(), self.kind(), self.image_id()),
    {
        let mut s = self.stem();
        s.append(IMAGE_EXTENSION);
        s
    }

    /// Where the image is written while it is fetched.
    pub fn partial_path(&self) -> (s: String)
        ensures
            s@ == partial_path(self.assets_dir(), self.kind(), self.image_id()),
    {
        let mut s = self.stem();
        s.append(PARTIAL_EXTENSION);
        s
    }

    /// Where the image is fetched from.
    pub fn url(&self) -> (s: String)
        ensures
            s@ == image_url(self.kind(), self.image_id()),
    {
        let mut s = String::from_str(IMAGE_URL);
        s.append(self.kind.size_name());
        s.push('/');
        s.append(self.image_id.as_str());
        s.append(IMAGE_EXTENSION);
        assert(s@ =~= image_url(self.kind(), self.image_id()));
        s
    }

    /// What the caller is to do next.
    pub fn action(&self) -> (a: DownloadAction)
        requires
            self.wf(),
        ensures
            a@ == download_action(
                self.assets_dir(),
                self.kind(),
                self.image_id(),
                self.phase(),
                self.attempt(),
            ),
    {
        match self.phase {
            DownloadPhase::Check => DownloadAction::Probe { path: self.local_path() },
            DownloadPhase::Fetch => DownloadAction::Fetch {
                url: self.url(),
                partial_path: self.partial_path(),
            },
            DownloadPhase::Rename => DownloadAction::Rename {
                from: self.partial_path(),
                to: self.local_path(),
            },
            DownloadPhase::Cleanup => DownloadAction::Remove { path: self.partial_path() },
            DownloadPhase::Wait => {
                let mut seconds: u64 = 1;
                let mut k: u32 = 0;
                while k < self.attempt
                    invariant
                        k <= self.attempt < MAX_ATTEMPTS,
                        seconds == backoff_seconds(k as nat),
                        seconds <= 4,
                    decreases self.attempt - k,
                {
                    assert(backoff_seconds((k + 1) as nat) == 2 * backoff_seconds(k as nat));
                    assert(backoff_seconds(0) == 1);
                    assert(backoff_seconds(1) == 2);
                    assert(backoff_seconds(2) == 4);
                    seconds = seconds * 2;
                    k += 1;
                }
                DownloadAction::Sleep { seconds }
            },
            DownloadPhase::Stored => DownloadAction::Finished(
                Ok((self.image_id.clone(), self.local_path())),
            ),
            DownloadPhase::GaveUp => DownloadAction::Finished(
                Err(AssetError::DownloadFailed(self.url())),
            ),
        }
    }

    /// Takes in what happened to the last action.
    pub fn advance(&mut self, event: DownloadEvent)
        requires
            old(self).wf(),
        ensures
            final(self).wf(),
            final(self).assets_dir() == old(self).assets_dir(),
            final(self).kind() == old(self).kind(),
            final(self).image_id() == old(self).image_id(),
            (final(self).phase(), final(self).attempt()) == download_step(
                old(self).phase(),
                old(self).attempt(),
                event,
            ),
    {
        let next = match self.phase {
            DownloadPhase::Check => match event {
                DownloadEvent::Exists(true) => DownloadPhase::Stored,
                _ => DownloadPhase::Fetch,
            },
            DownloadPhase::Fetch => match event {
                DownloadEvent::Done => DownloadPhase::Rename,
                _ => DownloadPhase::Cleanup,
            },
            DownloadPhase::Rename => match event {
                DownloadEvent::Done => DownloadPhase::Stored,
                _ => DownloadPhase::Cleanup,
            },
            DownloadPhase::Cleanup => if self.attempt + 1 < MAX_ATTEMPTS {
                DownloadPhase::Wait
            } else {
                DownloadPhase::GaveUp
            },
            DownloadPhase::Wait => {
                self.attempt = self.attempt + 1;
                DownloadPhase::Fetch
            },
            DownloadPhase::Stored => DownloadPhase::Stored,
            DownloadPhase::GaveUp => DownloadPhase::GaveUp,
        };
        self.phase = next;
    }
}


/// How often a download that stands in `phase`, during the attempt number
/// `attempt`, fetches the image while `events` come in.
pub open spec fn fetches(phase: DownloadPhase, attempt: u32, events: Seq<DownloadEvent>) -> nat
    decreases events.len(),
{
    let now: nat = if phase is Fetch {
        1
    } else {
        0
    };
    if events.len() == 0 {
        now
    } else {
        let next = download_step(phase, attempt, events.first());
        now + fetches(next.0, next.1, events.drop_first())
    }
}

/// How many fetches a download that stands in `phase`, during the attempt
/// number `attempt`, may still make.
pub open spec fn fetches_left(phase: DownloadPhase, attempt: u32) -> int {
    match phase {
        DownloadPhase::Check | DownloadPhase::Fetch => MAX_ATTEMPTS - attempt,
        DownloadPhase::Rename | DownloadPhase::Cleanup | DownloadPhase::Wait => MAX_ATTEMPTS
            - attempt - 1,
        _ => 0,
    }
}

/// Whatever happens, an image is fetched three times at most, and not at all
/// once it is stored or given up.
pub proof fn lemma_fetches_are_bounded(
    phase: DownloadPhase,
    attempt: u32,
    events: Seq<DownloadEvent>,
)
    requires
        attempt < MAX_ATTEMPTS,
        phase is Wait ==> attempt + 1 < MAX_ATTEMPTS,
    ensures
        fetches(phase, attempt, events) <= fetches_left(phase, attempt),
        fetches_left(phase, attempt) <= MAX_ATTEMPTS,
    decreases events.len(),
{
    if events.len() > 0 {
        let next = download_step(phase, attempt, events.first());
        lemma_fetches_are_bounded(next.0, next.1, events.drop_first());
    }
}

/// An image that is found in the mirror is never fetched.
pub proof fn lemma_existing_image_is_not_fetched(attempt: u32, events: Seq<DownloadEvent>)
    requires
        attempt < MAX_ATTEMPTS,
        events.len() > 0,
        events.first() == DownloadEvent::Exists(true),
    ensures
        fetches(DownloadPhase::Check, attempt, events) == 0,
{
    lemma_fetches_are_bounded(DownloadPhase::Stored, attempt, events.drop_first());
}

/// The steps of a download keep their order: an image is renamed to its
/// final name only after a fetch that succeeded; the partial file is removed
/// after every fetch and every rename that failed; the next attempt is
/// waited for, and the image is given up, only after the partial file was
/// removed. So a download ends only through an image that was found, a
/// rename that succeeded, or a removal: no partial file is left behind it.
pub proof fn lemma_download_order(phase: DownloadPhase, attempt: u32, event: DownloadEvent)
    ensures
        ({
            let next = download_step(phase, attempt, event).0;
            &&& next is Rename ==> phase is Fetch && event is Done
            &&& next is Cleanup <==> (phase is Fetch || phase is Rename) && !(event is Done)
            &&& next is Wait ==> phase is Cleanup
            &&& next is GaveUp ==> phase is Cleanup || phase is GaveUp
            &&& next is Stored ==> phase is Stored || (phase is Rename && event is Done) || (phase
                is Check && event == DownloadEvent::Exists(true))
        }),
{
}

/// The waits between the attempts are of one second and then of two.
pub proof fn lemma_backoff()
    ensures
        backoff_seconds(0) == 1,
        backoff_seconds(1) == 2,
        backoff_seconds(2) == 4,
{
    assert(backoff_seconds(1) == 2 * backoff_seconds(0));
    assert(backoff_seconds(2) == 2 * backoff_seconds(1));
}

/// An image is never written at its final place: the file that a fetch
/// writes is another one than the file that is kept.
pub proof fn lemma_partial_is_not_final(assets_dir: Seq<char>, kind: AssetKind, image_id: Seq<char>)
    ensures
        partial_path(assets_dir, kind, image_id) != local_path(assets_dir, kind, image_id),
{
    reveal_strlit(".jpg");
    reveal_strlit(".tmp");
    let stem = image_stem(assets_dir, kind, image_id);
    let a = partial_path(assets_dir, kind, image_id);
    let b = local_path(assets_dir, kind, image_id);
    assert(a[stem.len() as int + 1] == 't');
    assert(b[stem.len() as int + 1] == 'j');
}

/// Two images of one kind have two places in the mirror.
pub proof fn lemma_places_differ(
    assets_dir: Seq<char>,
    kind: AssetKind,
    a: Seq<char>,
    b: Seq<char>,
)
    requires
        local_path(assets_dir, kind, a) == local_path(assets_dir, kind, b),
    ensures
        a == b,
{
    let head = kind_dir(assets_dir, kind) + seq!['/'];
    let pa = local_path(assets_dir, kind, a);
    let pb = local_path(assets_dir, kind, b);
    assert(pa =~= head + a + IMAGE_EXTENSION@);
    assert(pb =~= head + b + IMAGE_EXTENSION@);
    assert(pa.len() == pb.len());
    assert(a.len() == b.len());
    assert forall|i: int| 0 <= i < a.len() implies a[i] == b[i] by {
        assert(pa[head.len() + i] == a[i]);
        assert(pb[head.len() + i] == b[i]);
    }
    assert(a =~= b);
}

/// Where one image of a batch stands.
#[derive(Clone, Copy, Debug, PartialEq, Eq, Structural)]
pub enum Slot {
    /// Its download has not been started.
    Waiting,
    /// Its download is running.
    Running,
    /// The image is in the mirror.
    Stored,
    /// Its download ended without the image in the mirror.
    Dropped,
}

/// How many of `slots` are `what`.
pub open spec fn count_of(slots: Seq<Slot>, what: Slot) -> nat
    decreases slots.len(),
{
    if slots.len() == 0 {
        0
    } else {
        count_of(slots.drop_last(), what) + (if slots.last() == what {
            1nat
        } else {
            0
        })
    }
}

/// Changing one slot changes a count by that slot alone.
pub proof fn lemma_count_update(slots: Seq<Slot>, i: int, to: Slot, what: Slot)
    requires
        0 <= i < slots.len(),
    ensures
        count_of(slots.update(i, to), what) == count_of(slots, what) - (if slots[i] == what {
            1int
        } else {
            0
        }) + (if to == what {
            1int
        } else {
            0
        }),
    decreases slots.len(),
{
    if i == slots.len() - 1 {
        assert(slots.update(i, to).drop_last() =~= slots.drop_last());
    } else {
        assert(slots.update(i, to).drop_last() =~= slots.drop_last().update(i, to));
        lemma_count_update(slots.drop_last(), i, to, what);
    }
}

/// The result of a batch: of the images `ids`, those whose slot says that
/// they are in the mirror, each with its place, in the order of `ids`.
pub open spec fn stored_pairs(
    assets_dir: Seq<char>,
    kind: AssetKind,
    ids: Seq<Seq<char>>,
    slots: Seq<Slot>,
) -> Seq<(Seq<char>, Seq<char>)>
    decreases ids.len(),
{
    if ids.len() == 0 || slots.len() != ids.len() {
        Seq::empty()
    } else {
        let rest = stored_pairs(assets_dir, kind, ids.drop_last(), slots.drop_last());
        if slots.last() is Stored {
            rest.push((ids.last(), local_path(assets_dir, kind, ids.last())))
        } else {
            rest
        }
    }
}

/// The result of a batch holds one pair for each image that is in the
/// mirror, and no other: the image with its place.
pub proof fn lemma_stored_pairs(
    assets_dir: Seq<char>,
    kind: AssetKind,
    ids: Seq<Seq<char>>,
    slots: Seq<Slot>,
    pair: (Seq<char>, Seq<char>),
)
    requires
        slots.len() == ids.len(),
    ensures
        stored_pairs(assets_dir, kind, ids, slots).len() == count_of(slots, Slot::Stored),
        stored_pairs(assets_dir, kind, ids, slots).contains(pair) <==> exists|i: int|
            0 <= i < ids.len() && slots[i] is Stored && pair == (
                #[trigger] ids[i],
                local_path(assets_dir, kind, ids[i]),
            ),
    decreases ids.len(),
{
    let all = stored_pairs(assets_dir, kind, ids, slots);
    if ids.len() > 0 {
        let head = ids.drop_last();
        let before = stored_pairs(assets_dir, kind, head, slots.drop_last());
        let last = (ids.last(), local_path(assets_dir, kind, ids.last()));
        lemma_stored_pairs(assets_dir, kind, head, slots.drop_last(), pair);
        if all.contains(pair) {
            let k = choose|k: int| 0 <= k < all.len() && all[k] == pair;
            if k < before.len() {
                assert(before[k] == pair);
                let i = choose|i: int|
                    0 <= i < head.len() && slots.drop_last()[i] is Stored && pair == (
                        #[trigger] head[i],
                        local_path(assets_dir, kind, head[i]),
                    );
                assert(ids[i] == head[i] && slots[i] == slots.drop_last()[i]);
            } else {
                assert(pair == last && slots[ids.len() - 1] is Stored);
                assert(ids[ids.len() - 1] == ids.last());
            }
        }
        if exists|i: int|
            0 <= i < ids.len() && slots[i] is Stored && pair == (
                #[trigger] ids[i],
                local_path(assets_dir, kind, ids[i]),
            ) {
            let i = choose|i: int|
                0 <= i < ids.len() && slots[i] is Stored && pair == (
                    #[trigger] ids[i],
                    local_path(assets_dir, kind, ids[i]),
                );
            if i < ids.len() - 1 {
                assert(head[i] == ids[i] && slots.drop_last()[i] == slots[i]);
                assert(before.contains(pair));
                let k = choose|k: int| 0 <= k < before.len() && before[k] == pair;
                assert(all[k] == pair);
            } else {
                assert(all[before.len() as int] == pair);
            }
        }
    }
}

/// Where every image of a batch is in the mirror, the result is every image
/// with its place, in the order of the batch. So two batches of the same
/// images that both find or store every image return the same pairs.
pub proof fn lemma_all_stored(
    assets_dir: Seq<char>,
    kind: AssetKind,
    ids: Seq<Seq<char>>,
    slots: Seq<Slot>,
)
    requires
        slots.len() == ids.len(),
        forall|i: int| 0 <= i < slots.len() ==> #[trigger] slots[i] is Stored,
    ensures
        stored_pairs(assets_dir, kind, ids, slots) == ids.map_values(
            |id: Seq<char>| (id, local_path(assets_dir, kind, id)),
        ),
    decreases ids.len(),
{
    let all = ids.map_values(|id: Seq<char>| (id, local_path(assets_dir, kind, id)));
    if ids.len() > 0 {
        assert(slots[slots.len() - 1] is Stored);
        assert forall|i: int| 0 <= i < slots.drop_last().len() implies #[trigger] slots.drop_last()[i]
            is Stored by {
            assert(slots[i] is Stored);
        }
        lemma_all_stored(assets_dir, kind, ids.drop_last(), slots.drop_last());
        assert(stored_pairs(assets_dir, kind, ids, slots) =~= all);
    } else {
        assert(stored_pairs(assets_dir, kind, ids, slots) =~= all);
    }
}

/// Where one image of a batch of distinct images was dropped and every other
/// is in the mirror, the result has one pair less than the batch has images,
/// none of them for the dropped image, and one for every other image.
pub proof fn lemma_one_dropped(
    assets_dir: Seq<char>,
    kind: AssetKind,
    ids: Seq<Seq<char>>,
    slots: Seq<Slot>,
    x: int,
)
    requires
        slots.len() == ids.len(),
        ids.no_duplicates(),
        0 <= x < ids.len(),
        slots[x] is Dropped,
        forall|i: int| 0 <= i < slots.len() && i != x ==> #[trigger] slots[i] is Stored,
    ensures
        stored_pairs(assets_dir, kind, ids, slots).len() == ids.len() - 1,
        forall|p: (Seq<char>, Seq<char>)|
            stored_pairs(assets_dir, kind, ids, slots).contains(p) ==> p.0 != ids[x],
        forall|i: int|
            0 <= i < ids.len() && i != x ==> stored_pairs(assets_dir, kind, ids, slots).contains(
                (#[trigger] ids[i], local_path(assets_dir, kind, ids[i])),
            ),
{
    let all = stored_pairs(assets_dir, kind, ids, slots);
    let full = slots.update(x, Slot::Stored);
    assert forall|i: int| 0 <= i < full.len() implies #[trigger] full[i] is Stored by {
        if i != x {
            assert(slots[i] is Stored);
        }
    }
    lemma_all_stored(assets_dir, kind, ids, full);
    lemma_stored_pairs(assets_dir, kind, ids, full, arbitrary());
    lemma_stored_pairs(assets_dir, kind, ids, slots, arbitrary());
    lemma_count_update(slots, x, Slot::Stored, Slot::Stored);
    assert forall|p: (Seq<char>, Seq<char>)| all.contains(p) implies p.0 != ids[x] by {
        lemma_stored_pairs(assets_dir, kind, ids, slots, p);
        let i = choose|i: int|
            0 <= i < ids.len() && slots[i] is Stored && p == (
                #[trigger] ids[i],
                local_path(assets_dir, kind, ids[i]),
            );
        assert(i != x);
    }
    assert forall|i: int| 0 <= i < ids.len() && i != x implies all.contains(
        (#[trigger] ids[i], local_path(assets_dir, kind, ids[i])),
    ) by {
        assert(slots[i] is Stored);
        lemma_stored_pairs(
            assets_dir,
            kind,
            ids,
            slots,
            (ids[i], local_path(assets_dir, kind, ids[i])),
        );
    }
}

/// How often the images of a batch are fetched in all, where `events` holds
/// for each image what happens to its download.
pub open spec fn batch_fetches(events: Seq<Seq<DownloadEvent>>) -> nat
    decreases events.len(),
{
    if events.len() == 0 {
        0
    } else {
        batch_fetches(events.drop_last()) + fetches(DownloadPhase::Check, 0, events.last())
    }
}

/// A batch whose images are all found in the mirror fetches nothing, and no
/// batch fetches an image more than three times.
pub proof fn lemma_batch_fetches(events: Seq<Seq<DownloadEvent>>)
    ensures
        batch_fetches(events) <= MAX_ATTEMPTS * events.len(),
        (forall|i: int|
            0 <= i < events.len() ==> (#[trigger] events[i]).len() > 0 && events[i].first()
                == DownloadEvent::Exists(true)) ==> batch_fetches(events) == 0,
    decreases events.len(),
{
    if events.len() > 0 {
        lemma_batch_fetches(events.drop_last());
        lemma_fetches_are_bounded(DownloadPhase::Check, 0, events.last());
        if forall|i: int|
            0 <= i < events.len() ==> (#[trigger] events[i]).len() > 0 && events[i].first()
                == DownloadEvent::Exists(true) {
            assert(events[events.len() - 1].len() > 0);
            lemma_existing_image_is_not_fetched(0, events.last());
            assert forall|i: int| 0 <= i < events.drop_last().len() implies (
            #[trigger] events.drop_last()[i]).len() > 0 && events.drop_last()[i].first()
                == DownloadEvent::Exists(true) by {
                assert(events[i].len() > 0);
            }
        }
    }
}

/// A batch of downloads of which only so many run at once.
///
/// The caller starts downloads with [`start_next`](BatchQueue::start_next) as
/// long as it returns one, runs each to its end, and hands it back with
/// [`complete`](BatchQueue::complete).
#[derive(Debug)]
pub struct BatchQueue {
    assets_dir: String,
    kind: AssetKind,
    image_ids: Vec<String>,
    slots: Vec<Slot>,
    started: usize,
    in_flight: usize,
}

impl BatchQueue {
    pub closed spec fn assets_dir(&self) -> Seq<char> {
        self.assets_dir@
    }

    pub closed spec fn kind(&self) -> AssetKind {
        self.kind
    }

    /// The images of the batch.
    pub closed spec fn image_ids(&self) -> Seq<Seq<char>> {
        texts(self.image_ids@)
    }

    /// Where each image of the batch stands.
    pub closed spec fn slots(&self) -> Seq<Slot> {
        self.slots@
    }

    /// How many downloads have been started.
    pub closed spec fn started(&self) -> nat {
        self.started as nat
    }

    /// How many downloads are running.
    pub closed spec fn in_flight(&self) -> nat {
        self.in_flight as nat
    }

    /// The images that are in the mirror, each with its place.
    pub open spec fn stored(&self) -> Seq<(Seq<char>, Seq<char>)> {
        stored_pairs(self.assets_dir(), self.kind(), self.image_ids(), self.slots())
    }

    /// Every image has its slot; the images are started in their order; the
    /// downloads that run are counted, and are no more than are allowed.
    pub open spec fn wf(&self) -> bool {
        &&& self.slots().len() == self.image_ids().len()
        &&& self.started() <= self.image_ids().len()
        &&& forall|i: int|
            0 <= i < self.slots().len() ==> (i < self.started() <==> !(#[trigger] self.slots()[i]
                is Waiting))
        &&& self.in_flight() == count_of(self.slots(), Slot::Running)
        &&& self.in_flight() <= MAX_CONCURRENT
    }

    /// Whether every download of the batch has been started and has ended.
    pub open spec fn finished(&self) -> bool {
        self.started() == self.image_ids().len() && self.in_flight() == 0
    }

    /// Whether `download` is the download of the image `index` of this
    /// batch, and has ended with the image in the mirror.
    pub open spec fn stored_by(&self, index: int, download: Download) -> bool {
        &&& download.phase() is Stored
        &&& download.image_id() == self.image_ids()[index]
        &&& download.kind() == self.kind()
        &&& download.assets_dir() == self.assets_dir()
    }

    /// The batch of the images `image_ids` of `kind` for the mirror
    /// `assets_dir`, with nothing started.
    pub fn new(assets_dir: &str, kind: AssetKind, image_ids: Vec<String>) -> (q: BatchQueue)
        ensures
            q.wf(),
            q.assets_dir() == assets_dir@,
            q.kind() == kind,
            q.image_ids() == texts(image_ids@),
            q.started() == 0,
            q.in_flight() == 0,
            q.slots() == Seq::new(image_ids@.len(), |i: int| Slot::Waiting),
    {
        let mut slots: Vec<Slot> = Vec::new();
        let mut i: usize = 0;
        while i < image_ids.len()
            invariant
                i <= image_ids.len(),
                slots@ == Seq::new(i as nat, |k: int| Slot::Waiting),
                count_of(slots@, Slot::Running) == 0,
            decreases image_ids.len() - i,
        {
            let ghost before = slots@;
            slots.push(Slot::Waiting);
            assert(slots@ =~= Seq::new((i + 1) as nat, |k: int| Slot::Waiting));
            assert(slots@.drop_last() =~= before);
            i += 1;
        }
        BatchQueue { assets_dir: String::from_str(assets_dir), kind, image_ids, slots, started: 0, in_flight: 0 }
    }

    /// The next download to run, if one more may run now: the download of the
    /// first image that has not been started, with the index of that image,
    /// unless five are running.
    pub fn start_next(&mut self) -> (r: Option<(usize, Download)>)
        requires
            old(self).wf(),
        ensures
            final(self).wf(),
            final(self).in_flight() <= MAX_CONCURRENT,
            final(self).assets_dir() == old(self).assets_dir(),
            final(self).kind() == old(self).kind(),
            final(self).image_ids() == old(self).image_ids(),
            r is Some <==> old(self).in_flight() < MAX_CONCURRENT && old(self).started() < old(
                self,
            ).image_ids().len(),
            match r {
                Some((index, download)) => {
                    &&& index == old(self).started()
                    &&& final(self).started() == old(self).started() + 1
                    &&& final(self).in_flight() == old(self).in_flight() + 1
                    &&& final(self).slots() == old(self).slots().update(index as int, Slot::Running)
                    &&& download.wf()
                    &&& download.assets_dir() == old(self).assets_dir()
                    &&& download.kind() == old(self).kind()
                    &&& download.image_id() == old(self).image_ids()[index as int]
                    &&& download.phase() == DownloadPhase::Check
                    &&& download.attempt() == 0
                },
                None => {
                    &&& final(self).started() == old(self).started()
                    &&& final(self).in_flight() == old(self).in_flight()
                    &&& final(self).slots() == old(self).slots()
                },
            },
    {
        if self.in_flight < MAX_CONCURRENT && self.started < self.image_ids.len() {
            let index = self.started;
            let id = self.image_ids[index].clone();
            let d = Download::new(self.assets_dir.as_str(), self.kind, id);
            proof {
                assert(old(self).slots()[index as int] is Waiting);
                lemma_count_update(old(self).slots(), index as int, Slot::Running, Slot::Running);
            }
            self.slots.set(index, Slot::Running);
            self.started = self.started + 1;
            self.in_flight = self.in_flight + 1;
            Some((index, d))
        } else {
            None
        }
    }

    /// Takes back the download of the image `index` at its end. The image
    /// counts as stored where the download is that of this image and has
    /// ended with the image in the mirror; else it is dropped. A download
    /// that is not running is not taken.
    pub fn complete(&mut self, index: usize, download: &Download)
        requires
            old(self).wf(),
        ensures
            final(self).wf(),
            final(self).assets_dir() == old(self).assets_dir(),
            final(self).kind() == old(self).kind(),
            final(self).image_ids() == old(self).image_ids(),
            final(self).started() == old(self).started(),
            if index < old(self).slots().len() && old(self).slots()[index as int] is Running {
                &&& final(self).in_flight() == old(self).in_flight() - 1
                &&& final(self).slots() == old(self).slots().update(
                    index as int,
                    if old(self).stored_by(index as int, *download) {
                        Slot::Stored
                    } else {
                        Slot::Dropped
                    },
                )
            } else {
                &&& final(self).in_flight() == old(self).in_flight()
                &&& final(self).slots() == old(self).slots()
            },
    {
        if index >= self.slots.len() {
            return ;
        }
        match self.slots[index] {
            Slot::Running => {},
            _ => {
                return ;
            },
        }
        let same = download.image_id == self.image_ids[index] && download.assets_dir
            == self.assets_dir;
        let same_kind = match (download.kind, self.kind) {
            (AssetKind::Cover, AssetKind::Cover) => true,
            (AssetKind::Artwork, AssetKind::Artwork) => true,
            _ => false,
        };
        let stored = match download.phase {
            DownloadPhase::Stored => same && same_kind,
            _ => false,
        };
        let to = if stored {
            Slot::Stored
        } else {
            Slot::Dropped
        };
        proof {
            lemma_count_update(old(self).slots(), index as int, to, Slot::Running);
        }
        self.slots.set(index, to);
        self.in_flight = self.in_flight - 1;
    }

    /// Whether every download of the batch has been started and has ended.
    pub fn is_finished(&self) -> (b: bool)
        ensures
            b == self.finished(),
    {
        assert(self.image_ids().len() == self.image_ids@.len());
        self.started == self.image_ids.len() && self.in_flight == 0
    }

    /// How many downloads are running.
    pub fn running(&self) -> (n: usize)
        ensures
            n == self.in_flight(),
    {
        self.in_flight
    }

    /// The images that are in the mirror, each with its place, in the order
    /// of the batch. An image whose download failed, or has not ended, is
    /// left out.
    pub fn into_results(self) -> (r: Vec<(String, String)>)
        requires
            self.wf(),
        ensures
            pairs(r@) == self.stored(),
    {
        let mut r: Vec<(String, String)> = Vec::new();
        let mut i: usize = 0;
        let ghost ids = self.image_ids();
        assert(ids.take(0) =~= Seq::empty());
        assert(pairs(r@) =~= Seq::empty());
        while i < self.image_ids.len()
            invariant
                i <= self.image_ids.len(),
                self.wf(),
                ids == self.image_ids(),
                pairs(r@) == stored_pairs(
                    self.assets_dir(),
                    self.kind(),
                    ids.take(i as int),
                    self.slots().take(i as int),
                ),
            decreases self.image_ids.len() - i,
        {
            proof {
                assert(ids.take(i + 1).drop_last() =~= ids.take(i as int));
                assert(self.slots().take(i + 1).drop_last() =~= self.slots().take(i as int));
                assert(ids.take(i + 1).last() == self.image_ids@[i as int]@);
                assert(self.slots().take(i + 1).last() == self.slots()[i as int]);
            }
            match self.slots[i] {
                Slot::Stored => {
                    let ghost before = r@;
                    let d = Download::new(
                        self.assets_dir.as_str(),
                        self.kind,
                        self.image_ids[i].clone(),
                    );
                    let path = d.local_path();
                    r.push((self.image_ids[i].clone(), path));
                    assert(pairs(r@) =~= pairs(before).push(
                        (
                            self.image_ids@[i as int]@,
                            local_path(self.assets_dir(), self.kind(), self.image_ids@[i as int]@),
                        ),
                    ));
                },
                _ => {},
            }
            i += 1;
        }
        assert(ids.take(i as int) =~= ids);
        assert(self.slots().take(i as int) =~= self.slots());
        r
    }
}

/// What [`AssetManager::clear_all`] asks for.
#[derive(Debug, PartialEq, Eq)]
pub struct ClearPlan {
    /// The directory to remove with everything in it, if it exists.
    pub remove: String,
    /// The directories to create afterwards, with their parents.
    pub create: Vec<String>,
}

/// The mirror of the catalog's images on this machine.
#[derive(Debug)]
pub struct AssetManager {
    assets_dir: String,
}

impl AssetManager {
    /// The directory of the mirror.
    pub closed spec fn assets_dir(&self) -> Seq<char> {
        self.assets_dir@
    }

    /// The mirror inside the application's data directory `app_dir`.
    pub fn new(app_dir: &str) -> (m: AssetManager)
        ensures
            m.assets_dir() == app_dir@ + seq!['/'] + ASSETS_DIR@,
    {
        let mut assets_dir = String::from_str(app_dir);
        assets_dir.push('/');
        assets_dir.append(ASSETS_DIR);
        assert(assets_dir@ =~= app_dir@ + seq!['/'] + ASSETS_DIR@);
        AssetManager { assets_dir }
    }

    /// The directory of the mirror.
    pub fn root(&self) -> (s: String)
        ensures
            s@ == self.assets_dir(),
    {
        self.assets_dir.clone()
    }

    /// The directory of the images of `kind`.
    pub fn directory(&self, kind: AssetKind) -> (s: String)
        ensures
            s@ == kind_dir(self.assets_dir(), kind),
    {
        let mut s = self.assets_dir.clone();
        s.push('/');
        s.append(kind.dir_name());
        assert(s@ =~= kind_dir(self.assets_dir(), kind));
        s
    }

    /// The directories that the mirror needs: one for covers, one for
    /// artworks.
    pub fn directories(&self) -> (r: Vec<String>)
        ensures
            texts(r@) == seq![
                kind_dir(self.assets_dir(), AssetKind::Cover),
                kind_dir(self.assets_dir(), AssetKind::Artwork),
            ],
    {
        let mut r: Vec<String> = Vec::new();
        r.push(self.directory(AssetKind::Cover));
        r.push(self.directory(AssetKind::Artwork));
        assert(texts(r@) =~= seq![
            kind_dir(self.assets_dir(), AssetKind::Cover),
            kind_dir(self.assets_dir(), AssetKind::Artwork),
        ]);
        r
    }

    /// The batch that mirrors the covers `image_ids`.
    pub fn download_batch_covers(&self, image_ids: Vec<String>) -> (q: BatchQueue)
        ensures
            q.wf(),
            q.assets_dir() == self.assets_dir(),
            q.kind() == AssetKind::Cover,
            q.image_ids() == texts(image_ids@),
            q.started() == 0,
            q.in_flight() == 0,
            q.slots() == Seq::new(image_ids@.len(), |i: int| Slot::Waiting),
    {
        BatchQueue::new(self.assets_dir.as_str(), AssetKind::Cover, image_ids)
    }

    /// The batch that mirrors the artworks `image_ids`.
    pub fn download_batch_artworks(&self, image_ids: Vec<String>) -> (q: BatchQueue)
        ensures
            q.wf(),
            q.assets_dir() == self.assets_dir(),
            q.kind() == AssetKind::Artwork,
            q.image_ids() == texts(image_ids@),
            q.started() == 0,
            q.in_flight() == 0,
            q.slots() == Seq::new(image_ids@.len(), |i: int| Slot::Waiting),
    {
        BatchQueue::new(self.assets_dir.as_str(), AssetKind::Artwork, image_ids)
    }

    /// The download of the cover `image_id`.
    pub fn download_cover(&self, image_id: String) -> (d: Download)
        ensures
            d.wf(),
            d.assets_dir() == self.assets_dir(),
            d.kind() == AssetKind::Cover,
            d.image_id() == image_id@,
            d.phase() == DownloadPhase::Check,
            d.attempt() == 0,
    {
        Download::new(self.assets_dir.as_str(), AssetKind::Cover, image_id)
    }

    /// The download of the artwork `image_id`.
    pub fn download_artwork(&self, image_id: String) -> (d: Download)
        ensures
            d.wf(),
            d.assets_dir() == self.assets_dir(),
            d.kind() == AssetKind::Artwork,
            d.image_id() == image_id@,
            d.phase() == DownloadPhase::Check,
            d.attempt() == 0,
    {
        Download::new(self.assets_dir.as_str(), AssetKind::Artwork, image_id)
    }

    /// What empties the mirror: its directory goes, with every image in it,
    /// and the two directories for covers and artworks are made anew.
    pub fn clear_all(&self) -> (p: ClearPlan)
        ensures
            p.remove@ == self.assets_dir(),
            texts(p.create@) == seq![
                kind_dir(self.assets_dir(), AssetKind::Cover),
                kind_dir(self.assets_dir(), AssetKind::Artwork),
            ],
    {
        ClearPlan { remove: self.assets_dir.clone(), create: self.directories() }
    }
}

} // verus!

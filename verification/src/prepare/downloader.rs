//! Where kernels and base root filesystems come from, and how the newest
//! one is chosen from a bucket listing.

use vstd::prelude::*;
use vstd::string::*;
use crate::argv::{argv2, argv3, argv4, argv6};
use crate::command::{capture, stream};
use crate::error::{about, lifted, Failure, FailureKind, FailureView};
use crate::outside::{
    captures, first_match, regex_accepts, regex_first, regex_groups,
};
use crate::script::{
    absent, always, failing, fetching, last, provided, push_block, run, script0, steps1, steps2,
    stdout_of, Block, BlockView, Condition, Phase, PhaseView, Source, SourceView, Step,
};
use crate::text::{
    after_last, before_last, is_suffix, join2, join3, join4, join5, last_segment, number,
    parse_u32, pieces, same, split, strip_prefix, strip_suffix, trim, trimmed,
    without_last_segment,
};

verus! {

/// The release page that redirects to the newest Firecracker release.
pub open spec fn releases_url() -> Seq<char> {
    "https://github.com/firecracker-microvm/firecracker/releases/latest"@
}

/// The bucket as it is listed.
pub open spec fn listing_url() -> Seq<char> {
    "http://spec.ccfc.min.s3.amazonaws.com/"@
}

/// The bucket as it is downloaded from.
pub open spec fn download_url() -> Seq<char> {
    "https://s3.amazonaws.com/spec.ccfc.min/"@
}

/// The keys of kernels and Ubuntu root filesystems in a bucket listing.
pub open spec fn key_pattern() -> Seq<char> {
    "<Key>(firecracker-ci/[^<]+/[^<]+/(?:vmlinux-\\d+\\.\\d+\\.\\d{1,3}|ubuntu-\\d+\\.\\d+\\.squashfs))</Key>"@
}

/// A bare `major.minor` version.
pub open spec fn version_pattern() -> Seq<char> {
    "^\\d+\\.\\d+$"@
}

/// Asks where the release page leads.
pub open spec fn ci_version_source() -> SourceView {
    stdout_of(
        "curl"@,
        seq!["-fsSLI"@, "-o"@, "/dev/null"@, "-w"@, "%{url_effective}"@, releases_url()],
        false,
    )
}

/// The CI version in the URL of a release: its last path segment, trimmed,
/// without what follows its last dot (`.../v1.13.1` gives `v1.13`).
pub open spec fn ci_version_of(url: Seq<char>) -> Seq<char> {
    without_last_segment(trimmed(last_segment(url, '/')), '.')
}

/// Asks for the keys in the bucket at `url` that begin with `prefix`.
pub open spec fn listing_source(url: Seq<char>, prefix: Seq<char>) -> SourceView {
    stdout_of("curl"@, seq!["-s"@, url + "?prefix="@ + prefix + "&list-type=2"@], false)
}

/// The entries that are present, in order.
pub open spec fn present_upto(found: Seq<Option<Seq<char>>>, n: int) -> Seq<Seq<char>>
    decreases n,
{
    if n <= 0 {
        Seq::empty()
    } else {
        match found[n - 1] {
            Some(key) => present_upto(found, n - 1).push(key),
            None => present_upto(found, n - 1),
        }
    }
}

/// The keys in a bucket listing, in listing order.
pub open spec fn listed_keys(listing: Seq<char>) -> Seq<Seq<char>> {
    let found = regex_groups(key_pattern(), listing, 1);
    present_upto(found, found.len() as int)
}

pub open spec fn number_or_zero(part: Seq<char>) -> u32 {
    match number(part) {
        Some(n) => n,
        None => 0,
    }
}

/// The version by which a key is ranked: the numbers between the dots of
/// what follows the last `-` of its file name, with `.squashfs` taken off
/// where the name ends in it.  A part that is no number counts as 0.
pub open spec fn version_of(key: Seq<char>) -> Seq<u32> {
    let tail = last_segment(last_segment(key, '/'), '-');
    let body = if is_suffix(".squashfs"@, tail) {
        tail.subrange(0, tail.len() - ".squashfs"@.len())
    } else {
        tail
    };
    numbers_upto(pieces(body, '.'), pieces(body, '.').len() as int)
}

/// The first `n` parts read as numbers.
pub open spec fn numbers_upto(parts: Seq<Seq<char>>, n: int) -> Seq<u32>
    decreases n,
{
    if n <= 0 {
        Seq::empty()
    } else {
        numbers_upto(parts, n - 1).push(number_or_zero(parts[n - 1]))
    }
}

/// At most the first `n` values of what was fetched.
pub open spec fn first_values(fetched: Seq<Seq<char>>, n: int) -> Seq<Seq<char>> {
    if fetched.len() < n {
        fetched
    } else {
        fetched.take(n)
    }
}

/// `a` does not rank above `b` from position `i` on: the first place where
/// they differ decides, and a version that ends first ranks lower.
pub open spec fn ranks_le_from(a: Seq<u32>, b: Seq<u32>, i: int) -> bool
    decreases a.len() - i,
{
    if i < 0 || i >= a.len() {
        true
    } else if i >= b.len() {
        false
    } else if a[i] != b[i] {
        a[i] < b[i]
    } else {
        ranks_le_from(a, b, i + 1)
    }
}

pub open spec fn ranks_le(a: Seq<u32>, b: Seq<u32>) -> bool {
    ranks_le_from(a, b, 0)
}

/// Position of the key that ranks highest among the first `n`; among keys
/// of equal rank, the one listed last.
pub open spec fn latest_upto(keys: Seq<Seq<char>>, n: int) -> int
    decreases n,
{
    if n <= 1 {
        0
    } else {
        let best = latest_upto(keys, n - 1);
        if ranks_le(version_of(keys[best]), version_of(keys[n - 1])) {
            n - 1
        } else {
            best
        }
    }
}

/// The newest of the keys that were found in a listing, or
/// `DownloadFailed` about `prefix` where none was found.
pub open spec fn latest_among(found: Seq<Option<Seq<char>>>, prefix: Seq<char>) -> Result<
    Seq<char>,
    FailureView,
> {
    let keys = present_upto(found, found.len() as int);
    if keys.len() == 0 {
        Err(about(FailureKind::DownloadFailed, prefix))
    } else {
        Ok(keys[latest_upto(keys, keys.len() as int)])
    }
}

/// The newest key of a bucket listing, or why there is none: the key
/// pattern is rejected, or the listing holds no key.
pub open spec fn latest_key_of(listing: Seq<char>, prefix: Seq<char>) -> Result<
    Seq<char>,
    FailureView,
> {
    if !regex_accepts(key_pattern()) {
        Err(about(FailureKind::ConfigInvalid, key_pattern()))
    } else {
        latest_among(regex_groups(key_pattern(), listing, 1), prefix)
    }
}

/// Position of the last key among the first `n` whose file name is
/// `name`, if there is one.
pub open spec fn named_upto(keys: Seq<Seq<char>>, name: Seq<char>, n: int) -> Option<int>
    decreases n,
{
    if n <= 0 {
        None
    } else if last_segment(keys[n - 1], '/') == name {
        Some(n - 1)
    } else {
        named_upto(keys, name, n - 1)
    }
}

/// The kernel to fetch among the keys that were found in a listing: the
/// release asked for, `vmlinux-<version>`, where the listing has it;
/// otherwise the newest kernel listed.
pub open spec fn kernel_among(
    found: Seq<Option<Seq<char>>>,
    version: Seq<char>,
    prefix: Seq<char>,
) -> Result<Seq<char>, FailureView> {
    let keys = present_upto(found, found.len() as int);
    match named_upto(keys, "vmlinux-"@ + version, keys.len() as int) {
        Some(i) => Ok(keys[i]),
        None => latest_among(found, prefix),
    }
}

/// The kernel to fetch from a bucket listing, or why there is none: the
/// key pattern is rejected, or the listing holds no key.
pub open spec fn kernel_key_of(listing: Seq<char>, version: Seq<char>, prefix: Seq<char>) -> Result<
    Seq<char>,
    FailureView,
> {
    if !regex_accepts(key_pattern()) {
        Err(about(FailureKind::ConfigInvalid, key_pattern()))
    } else {
        kernel_among(regex_groups(key_pattern(), listing, 1), version, prefix)
    }
}

/// Fetches `url` into `output`, unless that file is already there.
pub open spec fn download_file_script(url: Seq<char>, output: Seq<char>) -> Seq<BlockView> {
    seq![provided(absent(output), seq![run(stream("wget"@, seq!["-O"@, output, url], false))])]
}

pub open spec fn kernel_prefix(ci_version: Seq<char>, arch: Seq<char>) -> Seq<char> {
    "firecracker-ci/"@ + ci_version + "/"@ + arch + "/vmlinux-"@
}

pub open spec fn ubuntu_prefix(ci_version: Seq<char>, arch: Seq<char>) -> Seq<char> {
    "firecracker-ci/"@ + ci_version + "/"@ + arch + "/ubuntu-"@
}

/// Where a kernel download stands, and the kernel's path once it is known.
#[derive(Clone, Debug, PartialEq, Eq)]
pub struct KernelDownload {
    pub phase: Phase,
    pub kernel_file: Option<String>,
}

pub struct KernelDownloadView {
    pub phase: PhaseView,
    pub kernel_file: Option<Seq<char>>,
}

impl View for KernelDownload {
    type V = KernelDownloadView;

    open spec fn view(&self) -> KernelDownloadView {
        KernelDownloadView { phase: self.phase@, kernel_file: self.kernel_file.deep_view() }
    }
}

/// The kernel download, given what has been fetched so far: first the
/// release URL, then the bucket listing for that release and architecture;
/// with both at hand the kernel release `version`, or the newest kernel
/// where that release is not listed, is downloaded into the state
/// directory under its own file name.
pub open spec fn kernel_download_of(
    app_dir: Seq<char>,
    version: Seq<char>,
    arch: Seq<char>,
    fetched: Seq<Seq<char>>,
) -> KernelDownloadView {
    if fetched.len() == 0 {
        KernelDownloadView {
            phase: fetching(Seq::empty(), ci_version_source()),
            kernel_file: None,
        }
    } else if fetched.len() == 1 {
        KernelDownloadView {
            phase: fetching(
                Seq::empty(),
                listing_source(listing_url(), kernel_prefix(ci_version_of(fetched[0]), arch)),
            ),
            kernel_file: None,
        }
    } else {
        match kernel_key_of(fetched[1], version, kernel_prefix(ci_version_of(fetched[0]), arch)) {
            Err(e) => KernelDownloadView { phase: failing(e), kernel_file: None },
            Ok(key) => KernelDownloadView {
                phase: last(
                    download_file_script(
                        download_url() + key,
                        app_dir + "/"@ + last_segment(key, '/'),
                    ),
                ),
                kernel_file: Some(app_dir + "/"@ + last_segment(key, '/')),
            },
        }
    }
}

/// Kernel, Ubuntu archive and Ubuntu version, once all three are known.
#[derive(Clone, Debug, PartialEq, Eq)]
pub struct FilesDownload {
    pub phase: Phase,
    pub files: Option<(String, String, String)>,
}

pub struct FilesDownloadView {
    pub phase: PhaseView,
    pub files: Option<(Seq<char>, Seq<char>, Seq<char>)>,
}

impl View for FilesDownload {
    type V = FilesDownloadView;

    open spec fn view(&self) -> FilesDownloadView {
        FilesDownloadView { phase: self.phase@, files: self.files.deep_view() }
    }
}

/// The Ubuntu version in a key, given the bare version that its file
/// name was found to be, if it is one: that version, otherwise the file
/// name between `ubuntu-` and `.squashfs`.
pub open spec fn named_version(key: Seq<char>, bare: Option<Seq<char>>) -> Result<
    Seq<char>,
    FailureView,
> {
    let name = last_segment(key, '/');
    match bare {
        Some(version) => Ok(version),
        None => if crate::text::is_prefix("ubuntu-"@, name) && is_suffix(
            ".squashfs"@,
            name.subrange("ubuntu-"@.len() as int, name.len() as int),
        ) {
            Ok(name.subrange("ubuntu-"@.len() as int, name.len() - ".squashfs"@.len()))
        } else {
            Err(about(FailureKind::DownloadFailed, key))
        },
    }
}

/// The Ubuntu version in a key: its file name where that is a bare
/// version, otherwise the file name between `ubuntu-` and `.squashfs`.
pub open spec fn ubuntu_version_of(key: Seq<char>) -> Result<Seq<char>, FailureView> {
    if !regex_accepts(version_pattern()) {
        Err(about(FailureKind::ConfigInvalid, version_pattern()))
    } else {
        named_version(key, regex_first(version_pattern(), last_segment(key, '/')))
    }
}

/// The download of kernel and Ubuntu archive, given what has been fetched
/// so far.  The kernel comes first and takes two values; the release URL is
/// then asked for again, and the listing of Ubuntu archives after it.
pub open spec fn files_download_of(
    app_dir: Seq<char>,
    version: Seq<char>,
    arch: Seq<char>,
    fetched: Seq<Seq<char>>,
) -> FilesDownloadView {
    let kernel = kernel_download_of(app_dir, version, arch, first_values(fetched, 2));
    if fetched.len() < 2 || kernel.kernel_file is None {
        FilesDownloadView { phase: kernel.phase, files: None }
    } else if fetched.len() == 2 {
        FilesDownloadView {
            phase: fetching(kernel.phase.script, ci_version_source()),
            files: None,
        }
    } else if fetched.len() == 3 {
        FilesDownloadView {
            phase: fetching(
                Seq::empty(),
                listing_source(listing_url(), ubuntu_prefix(ci_version_of(fetched[2]), arch)),
            ),
            files: None,
        }
    } else {
        match latest_key_of(fetched[3], ubuntu_prefix(ci_version_of(fetched[2]), arch)) {
            Err(e) => FilesDownloadView { phase: failing(e), files: None },
            Ok(key) => match ubuntu_version_of(key) {
                Err(e) => FilesDownloadView { phase: failing(e), files: None },
                Ok(version) => FilesDownloadView {
                    phase: last(
                        download_file_script(
                            download_url() + key,
                            app_dir + "/ubuntu-"@ + version + ".squashfs.upstream"@,
                        ),
                    ),
                    files: Some(
                        (
                            kernel.kernel_file->0,
                            app_dir + "/ubuntu-"@ + version + ".squashfs.upstream"@,
                            version,
                        ),
                    ),
                },
            },
        }
    }
}

/// A prebuilt root filesystem image from the mirror, kept in the state
/// directory as `<name>-rootfs.squashfs`.
pub open spec fn mirror_rootfs_script(app_dir: Seq<char>, name: Seq<char>) -> Seq<BlockView> {
    download_file_script(
        "https://public.rocksky.app/"@ + name + "-rootfs.img"@,
        app_dir + "/"@ + name + "-rootfs.squashfs"@,
    )
}

/// The Alpine mini root filesystem, downloaded and unpacked into
/// `minirootfs`.
pub open spec fn alpine_rootfs_script(
    app_dir: Seq<char>,
    minirootfs: Seq<char>,
    arch: Seq<char>,
) -> Seq<BlockView> {
    download_file_script(
        "https://mirrors.aliyun.com/alpine/v3.22/releases/"@ + arch + "/alpine-minirootfs-3.22.0-"@
            + arch + ".tar.gz"@,
        app_dir + "/alpine-"@ + arch + ".tar.gz"@,
    ) + seq![
        always(
            seq![
                run(capture("mkdir"@, seq!["-p"@, minirootfs], true)),
                run(
                    capture(
                        "tar"@,
                        seq![
                            "-xzf"@,
                            app_dir + "/alpine-"@ + arch + ".tar.gz"@,
                            "-C"@,
                            minirootfs,
                        ],
                        true,
                    ),
                ),
            ],
        ),
    ]
}

pub fn ci_version_request() -> (r: Source)
    ensures
        r@ == ci_version_source(),
{
    Source::stdout_of(
        "curl",
        argv6(
            "-fsSLI",
            "-o",
            "/dev/null",
            "-w",
            "%{url_effective}",
            "https://github.com/firecracker-microvm/firecracker/releases/latest",
        ),
        false,
    )
}

/// The CI version named by the URL that the release page leads to.
pub fn get_ci_version(url: &str) -> (r: String)
    ensures
        r@ == ci_version_of(url@),
{
    let version = trim(after_last(url, '/').as_str());
    before_last(version.as_str(), '.')
}

pub fn listing_request(url: &str, prefix: &str) -> (r: Source)
    ensures
        r@ == listing_source(url@, prefix@),
{
    Source::stdout_of(
        "curl",
        argv2("-s", join4(url, "?prefix=", prefix, "&list-type=2").as_str()),
        false,
    )
}

fn present_keys(found: &Vec<Option<String>>) -> (keys: Vec<String>)
    ensures
        keys.deep_view() == present_upto(found.deep_view(), found.len() as int),
{
    let mut keys: Vec<String> = Vec::new();
    assert(keys.deep_view() =~= Seq::<Seq<char>>::empty());
    let mut i: usize = 0;
    while i < found.len()
        invariant
            i <= found.len(),
            keys.deep_view() == present_upto(found.deep_view(), i as int),
        decreases found.len() - i,
    {
        let ghost before = keys.deep_view();
        assert(found.deep_view()[i as int] == found[i as int].deep_view());
        match &found[i] {
            Some(key) => {
                keys.push(key.clone());
                assert(keys.deep_view() =~= before.push(key@));
            },
            None => {},
        }
        i += 1;
    }
    keys
}

/// The version by which a key is ranked.
pub fn key_version(key: &str) -> (v: Vec<u32>)
    ensures
        v@ == version_of(key@),
{
    let name = after_last(key, '/');
    let tail = after_last(name.as_str(), '-');
    let body = match strip_suffix(tail.as_str(), ".squashfs") {
        Some(b) => b,
        None => tail,
    };
    let parts = split(body.as_str(), '.');
    let mut v: Vec<u32> = Vec::new();
    let mut i: usize = 0;
    while i < parts.len()
        invariant
            i <= parts.len(),
            v@ == numbers_upto(parts.deep_view(), i as int),
        decreases parts.len() - i,
    {
        let n = match parse_u32(parts[i].as_str()) {
            Some(n) => n,
            None => 0,
        };
        assert(parts.deep_view()[i as int] == parts[i as int]@);
        v.push(n);
        i += 1;
    }
    v
}

/// Whether version `a` ranks no higher than version `b`.
pub fn version_le(a: &Vec<u32>, b: &Vec<u32>) -> (r: bool)
    ensures
        r == ranks_le(a@, b@),
{
    let mut i: usize = 0;
    while i < a.len()
        invariant
            i <= a.len(),
            ranks_le(a@, b@) == ranks_le_from(a@, b@, i as int),
        decreases a.len() - i,
    {
        if i >= b.len() {
            return false;
        }
        if a[i] != b[i] {
            return a[i] < b[i];
        }
        i += 1;
    }
    true
}

/// The newest of the keys found in a bucket listing; `found` holds, for
/// each place where the listing names a key, the key that it names.
pub fn latest_key(found: &Vec<Option<String>>, prefix: &str) -> (r: Result<String, Failure>)
    ensures
        lifted(r) == latest_among(found.deep_view(), prefix@),
{
    let keys = present_keys(found);
    if keys.len() == 0 {
        return Err(Failure::about(FailureKind::DownloadFailed, prefix));
    }
    let mut best: usize = 0;
    let mut best_version = key_version(keys[0].as_str());
    let mut i: usize = 1;
    while i < keys.len()
        invariant
            1 <= i <= keys.len(),
            best < i,
            best == latest_upto(keys.deep_view(), i as int),
            best_version@ == version_of(keys[best as int]@),
        decreases keys.len() - i,
    {
        let version = key_version(keys[i].as_str());
        assert(keys.deep_view()[i as int] == keys[i as int]@);
        assert(keys.deep_view()[best as int] == keys[best as int]@);
        if version_le(&best_version, &version) {
            best = i;
            best_version = version;
        }
        i += 1;
    }
    assert(keys.deep_view()[best as int] == keys[best as int]@);
    Ok(keys[best].clone())
}

/// The newest key in a bucket listing.
pub fn get_latest_key(listing: &str, prefix: &str) -> (r: Result<String, Failure>)
    ensures
        lifted(r) == latest_key_of(listing@, prefix@),
{
    let pattern =
        "<Key>(firecracker-ci/[^<]+/[^<]+/(?:vmlinux-\\d+\\.\\d+\\.\\d{1,3}|ubuntu-\\d+\\.\\d+\\.squashfs))</Key>";
    match captures(pattern, listing, 1) {
        Ok(found) => latest_key(&found, prefix),
        Err(_) => Err(Failure::about(FailureKind::ConfigInvalid, pattern)),
    }
}

/// The kernel to fetch among the keys found in a bucket listing: the
/// release `version` where it is listed, otherwise the newest.
pub fn kernel_key(found: &Vec<Option<String>>, version: &str, prefix: &str) -> (r: Result<
    String,
    Failure,
>)
    ensures
        lifted(r) == kernel_among(found.deep_view(), version@, prefix@),
{
    let keys = present_keys(found);
    let name = join2("vmlinux-", version);
    let mut hit: Option<usize> = None;
    let mut i: usize = 0;
    while i < keys.len()
        invariant
            i <= keys.len(),
            name@ == "vmlinux-"@ + version@,
            match hit {
                Some(k) => named_upto(keys.deep_view(), name@, i as int) == Some(k as int) && k < i,
                None => named_upto(keys.deep_view(), name@, i as int) is None,
            },
        decreases keys.len() - i,
    {
        assert(keys.deep_view()[i as int] == keys[i as int]@);
        let file = after_last(keys[i].as_str(), '/');
        if same(file.as_str(), name.as_str()) {
            hit = Some(i);
        }
        i += 1;
    }
    match hit {
        Some(k) => {
            assert(keys.deep_view()[k as int] == keys[k as int]@);
            Ok(keys[k].clone())
        },
        None => latest_key(found, prefix),
    }
}

/// The kernel to fetch from a bucket listing.
pub fn get_kernel_key(listing: &str, version: &str, prefix: &str) -> (r: Result<String, Failure>)
    ensures
        lifted(r) == kernel_key_of(listing@, version@, prefix@),
{
    let pattern =
        "<Key>(firecracker-ci/[^<]+/[^<]+/(?:vmlinux-\\d+\\.\\d+\\.\\d{1,3}|ubuntu-\\d+\\.\\d+\\.squashfs))</Key>";
    match captures(pattern, listing, 1) {
        Ok(found) => kernel_key(&found, version, prefix),
        Err(_) => Err(Failure::about(FailureKind::ConfigInvalid, pattern)),
    }
}

pub fn download_file(url: &str, output: &str) -> (r: Vec<Block>)
    ensures
        r.deep_view() == download_file_script(url@, output@),
{
    let mut script = script0();
    push_block(
        &mut script,
        Block::provided(
            Condition::absent(output),
            steps1(Step::stream("wget", argv3("-O", output, url), false)),
        ),
    );
    script
}

fn download_kernel_at(
    app_dir: &str,
    version: &str,
    arch: &str,
    fetched: &Vec<String>,
    given: usize,
) -> (r: KernelDownload)
    requires
        given <= fetched.len(),
        given <= 2,
    ensures
        r@ == kernel_download_of(
            app_dir@,
            version@,
            arch@,
            fetched.deep_view().take(given as int),
        ),
{
    let ghost seen = fetched.deep_view().take(given as int);
    if given == 0 {
        return KernelDownload {
            phase: Phase::fetching(script0(), ci_version_request()),
            kernel_file: None,
        };
    }
    assert(seen[0] == fetched[0]@);
    let ci_version = get_ci_version(fetched[0].as_str());
    let prefix = join5("firecracker-ci/", ci_version.as_str(), "/", arch, "/vmlinux-");
    if given == 1 {
        return KernelDownload {
            phase: Phase::fetching(
                script0(),
                listing_request("http://spec.ccfc.min.s3.amazonaws.com/", prefix.as_str()),
            ),
            kernel_file: None,
        };
    }
    assert(seen[1] == fetched[1]@);
    match get_kernel_key(fetched[1].as_str(), version, prefix.as_str()) {
        Err(e) => KernelDownload { phase: Phase::failing(e), kernel_file: None },
        Ok(key) => {
            let kernel_file = join3(app_dir, "/", after_last(key.as_str(), '/').as_str());
            let url = join2("https://s3.amazonaws.com/spec.ccfc.min/", key.as_str());
            KernelDownload {
                phase: Phase::last(download_file(url.as_str(), kernel_file.as_str())),
                kernel_file: Some(kernel_file),
            }
        },
    }
}

/// Downloads the kernel release `version` for `arch` into the state
/// directory, or the newest CI kernel where that release is not listed.
///
/// Called again with every value fetched so far, it says what to do next;
/// with two values or more it is complete and names the kernel file.
pub fn download_kernel(app_dir: &str, version: &str, arch: &str, fetched: &Vec<String>) -> (r:
    KernelDownload)
    ensures
        r@ == kernel_download_of(app_dir@, version@, arch@, first_values(fetched.deep_view(), 2)),
{
    let given: usize = if fetched.len() < 2 {
        fetched.len()
    } else {
        2
    };
    assert(fetched.deep_view().take(fetched.len() as int) =~= fetched.deep_view());
    download_kernel_at(app_dir, version, arch, fetched, given)
}

/// The Ubuntu version named by a key whose file name was found to be the
/// bare version `bare`, or found to be none.
pub fn version_in_name(key: &str, bare: Option<String>) -> (r: Result<String, Failure>)
    ensures
        lifted(r) == named_version(key@, bare.deep_view()),
{
    match bare {
        Some(version) => Ok(version),
        None => {
            let name = after_last(key, '/');
            match strip_prefix(name.as_str(), "ubuntu-") {
                None => Err(Failure::about(FailureKind::DownloadFailed, key)),
                Some(rest) => match strip_suffix(rest.as_str(), ".squashfs") {
                    None => Err(Failure::about(FailureKind::DownloadFailed, key)),
                    Some(version) => {
                        assert(version@ =~= name@.subrange(
                            "ubuntu-"@.len() as int,
                            name@.len() - ".squashfs"@.len(),
                        ));
                        Ok(version)
                    },
                },
            }
        },
    }
}

/// The Ubuntu version named by a key.
pub fn ubuntu_version(key: &str) -> (r: Result<String, Failure>)
    ensures
        lifted(r) == ubuntu_version_of(key@),
{
    let name = after_last(key, '/');
    match first_match("^\\d+\\.\\d+$", name.as_str()) {
        Err(_) => Err(Failure::about(FailureKind::ConfigInvalid, "^\\d+\\.\\d+$")),
        Ok(bare) => version_in_name(key, bare),
    }
}

/// Downloads the newest CI kernel and the newest Ubuntu archive.
///
/// Called again with every value fetched so far, it says what to do next;
/// with four values or more it is complete and names kernel file, archive
/// and Ubuntu version.
pub fn download_files(app_dir: &str, version: &str, arch: &str, fetched: &Vec<String>) -> (r:
    FilesDownload)
    ensures
        r@ == files_download_of(app_dir@, version@, arch@, first_values(fetched.deep_view(), 4)),
{
    let given: usize = if fetched.len() < 4 {
        fetched.len()
    } else {
        4
    };
    let ghost seen = fetched.deep_view().take(given as int);
    assert(fetched.deep_view().take(fetched.len() as int) =~= fetched.deep_view());
    let kernel_given: usize = if given < 2 {
        given
    } else {
        2
    };
    assert(first_values(seen, 2) =~= fetched.deep_view().take(kernel_given as int));
    let kernel = download_kernel_at(app_dir, version, arch, fetched, kernel_given);
    let kernel_file = match kernel.kernel_file {
        Some(f) => f,
        None => {
            return FilesDownload { phase: kernel.phase, files: None };
        },
    };
    assert(given >= 2);
    if given == 2 {
        return FilesDownload {
            phase: Phase::fetching(kernel.phase.script, ci_version_request()),
            files: None,
        };
    }
    assert(seen[2] == fetched[2]@);
    let ci_version = get_ci_version(fetched[2].as_str());
    let prefix = join5("firecracker-ci/", ci_version.as_str(), "/", arch, "/ubuntu-");
    if given == 3 {
        return FilesDownload {
            phase: Phase::fetching(
                script0(),
                listing_request("http://spec.ccfc.min.s3.amazonaws.com/", prefix.as_str()),
            ),
            files: None,
        };
    }
    assert(seen[3] == fetched[3]@);
    let key = match get_latest_key(fetched[3].as_str(), prefix.as_str()) {
        Ok(key) => key,
        Err(e) => {
            return FilesDownload { phase: Phase::failing(e), files: None };
        },
    };
    let version = match ubuntu_version(key.as_str()) {
        Ok(v) => v,
        Err(e) => {
            return FilesDownload { phase: Phase::failing(e), files: None };
        },
    };
    let ubuntu_file = join4(app_dir, "/ubuntu-", version.as_str(), ".squashfs.upstream");
    let url = join2("https://s3.amazonaws.com/spec.ccfc.min/", key.as_str());
    FilesDownload {
        phase: Phase::last(download_file(url.as_str(), ubuntu_file.as_str())),
        files: Some((kernel_file, ubuntu_file, version)),
    }
}

fn mirror_rootfs(app_dir: &str, name: &str) -> (r: Vec<Block>)
    ensures
        r.deep_view() == mirror_rootfs_script(app_dir@, name@),
{
    download_file(
        join3("https://public.rocksky.app/", name, "-rootfs.img").as_str(),
        join4(app_dir, "/", name, "-rootfs.squashfs").as_str(),
    )
}

pub fn download_alpine_rootfs(app_dir: &str, minirootfs: &str, arch: &str) -> (r: Vec<Block>)
    ensures
        r.deep_view() == alpine_rootfs_script(app_dir@, minirootfs@, arch@),
{
    let output = join4(app_dir, "/alpine-", arch, ".tar.gz");
    let mut script = download_file(
        join5(
            "https://mirrors.aliyun.com/alpine/v3.22/releases/",
            arch,
            "/alpine-minirootfs-3.22.0-",
            arch,
            ".tar.gz",
        ).as_str(),
        output.as_str(),
    );
    push_block(
        &mut script,
        Block::always(
            steps2(
                Step::capture("mkdir", argv2("-p", minirootfs), true),
                Step::capture("tar", argv4("-xzf", output.as_str(), "-C", minirootfs), true),
            ),
        ),
    );
    script
}

pub fn download_nixos_rootfs(app_dir: &str, _arch: &str) -> (r: Vec<Block>)
    ensures
        r.deep_view() == mirror_rootfs_script(app_dir@, "nixos"@),
{
    mirror_rootfs(app_dir, "nixos")
}

pub fn download_fedora_rootfs(app_dir: &str, _arch: &str) -> (r: Vec<Block>)
    ensures
        r.deep_view() == mirror_rootfs_script(app_dir@, "fedora"@),
{
    mirror_rootfs(app_dir, "fedora")
}

pub fn download_gentoo_rootfs(app_dir: &str, _arch: &str) -> (r: Vec<Block>)
    ensures
        r.deep_view() == mirror_rootfs_script(app_dir@, "gentoo"@),
{
    mirror_rootfs(app_dir, "gentoo")
}

pub fn download_slackware_rootfs(app_dir: &str, _arch: &str) -> (r: Vec<Block>)
    ensures
        r.deep_view() == mirror_rootfs_script(app_dir@, "slackware"@),
{
    mirror_rootfs(app_dir, "slackware")
}

pub fn download_opensuse_rootfs(app_dir: &str, _arch: &str) -> (r: Vec<Block>)
    ensures
        r.deep_view() == mirror_rootfs_script(app_dir@, "opensuse"@),
{
    mirror_rootfs(app_dir, "opensuse")
}

pub fn download_opensuse_tumbleweed_rootfs(app_dir: &str, _arch: &str) -> (r: Vec<Block>)
    ensures
        r.deep_view() == mirror_rootfs_script(app_dir@, "opensuse-tumbleweed"@),
{
    mirror_rootfs(app_dir, "opensuse-tumbleweed")
}

pub fn download_almalinux_rootfs(app_dir: &str, _arch: &str) -> (r: Vec<Block>)
    ensures
        r.deep_view() == mirror_rootfs_script(app_dir@, "almalinux"@),
{
    mirror_rootfs(app_dir, "almalinux")
}

pub fn download_rockylinux_rootfs(app_dir: &str, _arch: &str) -> (r: Vec<Block>)
    ensures
        r.deep_view() == mirror_rootfs_script(app_dir@, "rockylinux"@),
{
    mirror_rootfs(app_dir, "rockylinux")
}

pub fn download_archlinux_rootfs(app_dir: &str, _arch: &str) -> (r: Vec<Block>)
    ensures
        r.deep_view() == mirror_rootfs_script(app_dir@, "archlinux"@),
{
    mirror_rootfs(app_dir, "archlinux")
}

proof fn lemma_ranks_total_from(a: Seq<u32>, b: Seq<u32>, i: int)
    requires
        0 <= i,
    ensures
        ranks_le_from(a, b, i) || ranks_le_from(b, a, i),
    decreases a.len() - i,
{
    if i < a.len() && i < b.len() && a[i] == b[i] {
        lemma_ranks_total_from(a, b, i + 1);
    }
}

proof fn lemma_ranks_transitive_from(a: Seq<u32>, b: Seq<u32>, c: Seq<u32>, i: int)
    requires
        0 <= i,
        ranks_le_from(a, b, i),
        ranks_le_from(b, c, i),
    ensures
        ranks_le_from(a, c, i),
    decreases a.len() - i,
{
    if i < a.len() && i < b.len() && i < c.len() && a[i] == b[i] && b[i] == c[i] {
        lemma_ranks_transitive_from(a, b, c, i + 1);
    }
}

/// The key that is taken as the newest ranks no lower than any other, and
/// every key listed after it ranks strictly lower.
pub proof fn lemma_latest_ranks_highest(keys: Seq<Seq<char>>, n: int)
    requires
        1 <= n <= keys.len(),
    ensures
        0 <= latest_upto(keys, n) < n,
        forall|j: int|
            0 <= j < n ==> ranks_le(
                version_of(#[trigger] keys[j]),
                version_of(keys[latest_upto(keys, n)]),
            ),
        forall|j: int|
            latest_upto(keys, n) < j < n ==> !ranks_le(
                version_of(keys[latest_upto(keys, n)]),
                version_of(#[trigger] keys[j]),
            ),
    decreases n,
{
    if n == 1 {
        lemma_ranks_total_from(version_of(keys[0]), version_of(keys[0]), 0);
    } else {
        lemma_latest_ranks_highest(keys, n - 1);
        let before = latest_upto(keys, n - 1);
        let best = version_of(keys[before]);
        let new = version_of(keys[n - 1]);
        if ranks_le(best, new) {
            lemma_ranks_total_from(new, new, 0);
            assert forall|j: int| 0 <= j < n implies ranks_le(
                version_of(#[trigger] keys[j]),
                new,
            ) by {
                if j < n - 1 {
                    lemma_ranks_transitive_from(version_of(keys[j]), best, new, 0);
                }
            }
        } else {
            lemma_ranks_total_from(best, new, 0);
        }
    }
}

} // verus!

//! SSH credentials: the keys a guest accepts, and how they get into its
//! root filesystem.

use vstd::prelude::*;
use vstd::string::*;
use vstd::utf8::encode_utf8;
use crate::argv::{argv2, argv3, argv4};
use crate::command::{capture, stream};
use crate::outside::{sha256, sha256_of};
use crate::script::{
    absent, always, either, fetching, last, present, provided, push_block, run, script0, steps1,
    steps2, steps3, steps4, Block, BlockView, Condition, Phase, PhaseView, Source, SourceView,
    Step, StepView,
};
use crate::text::{ends_with, is_suffix, join, join2, join3, join4, joined, trim, trimmed};

verus! {

/// The line of the NixOS configuration that stands for the public key.
pub open spec fn nixos_placeholder_key() -> Seq<char> {
    "ssh-ed25519 AAAAC3NzaC1lZDI1NTE5AAAAIAR4Gvuv3lTpXIYeZTRO22nVEj64uMmlDAdt5+GG80hm tsiry@tsiry-XPS-9320"@
}

/// The text by which a list of keys is recognised: the keys with a newline
/// between them, and one at the end unless it is there already.
pub open spec fn keys_text(keys: Seq<Seq<char>>) -> Seq<char> {
    let lines = joined(keys, "\n"@);
    if is_suffix("\n"@, lines) {
        lines
    } else {
        lines + "\n"@
    }
}

/// What installing the first `n` keys writes: each followed by a newline.
pub open spec fn installed_upto(keys: Seq<Seq<char>>, n: int) -> Seq<char>
    decreases n,
{
    if n <= 0 {
        Seq::empty()
    } else {
        installed_upto(keys, n - 1) + keys[n - 1] + "\n"@
    }
}

/// The content of `authorized_keys` once `keys` have been installed.
pub open spec fn installed_text(keys: Seq<Seq<char>>) -> Seq<char> {
    installed_upto(keys, keys.len() as int)
}

/// The fingerprint of a text: the SHA-256 of its UTF-8 encoding.
pub open spec fn fingerprint_of(text: Seq<char>) -> Seq<u8> {
    sha256_of(encode_utf8(text))
}

/// Whether the image must be rebuilt for `ssh_keys`: never when no keys
/// are supplied; always when nothing is installed; otherwise exactly when
/// the fingerprint of the supplied keys' text differs from that of what
/// is installed.
pub open spec fn keys_changed(ssh_keys: Option<Seq<Seq<char>>>, installed: Option<Seq<char>>) -> bool {
    match ssh_keys {
        None => false,
        Some(keys) => match installed {
            None => true,
            Some(content) => fingerprint_of(keys_text(keys)) != fingerprint_of(content),
        },
    }
}

/// Installs the default key pair's public key, generating the pair first
/// where the state directory holds none.
pub open spec fn generate_and_copy_ssh_key_script(
    app_dir: Seq<char>,
    key_name: Seq<char>,
    squashfs_root_dir: Seq<char>,
) -> Seq<BlockView> {
    seq![
        either(
            present(app_dir + "/"@ + key_name),
            seq![
                run(capture("mkdir"@, seq!["-p"@, squashfs_root_dir + "/root/.ssh"@], true)),
                run(
                    capture(
                        "cp"@,
                        seq![
                            app_dir + "/"@ + key_name + ".pub"@,
                            squashfs_root_dir + "/root/.ssh/authorized_keys"@,
                        ],
                        true,
                    ),
                ),
            ],
            seq![
                run(
                    stream(
                        "ssh-keygen"@,
                        seq!["-f"@, app_dir + "/"@ + key_name, "-N"@, ""@],
                        false,
                    ),
                ),
                run(
                    capture(
                        "cp"@,
                        seq![
                            app_dir + "/"@ + key_name + ".pub"@,
                            squashfs_root_dir + "/root/.ssh/authorized_keys"@,
                        ],
                        true,
                    ),
                ),
            ],
        ),
    ]
}

/// Installs the supplied keys as the guest's `authorized_keys`: the file
/// holds the supplied keys, each on a line of its own, and nothing else,
/// whatever stood in it or in the temporary file before.
pub open spec fn copy_ssh_keys_script(ssh_keys: Seq<Seq<char>>, squashfs_root_dir: Seq<char>) -> Seq<
    BlockView,
> {
    seq![
        always(
            seq![
                run(capture("mkdir"@, seq!["-p"@, squashfs_root_dir + "/root/.ssh"@], true)),
                StepView::WriteFile {
                    path: "/tmp/authorized_keys"@,
                    content: installed_text(ssh_keys),
                },
                run(
                    capture(
                        "cp"@,
                        seq![
                            "/tmp/authorized_keys"@,
                            squashfs_root_dir + "/root/.ssh/authorized_keys"@,
                        ],
                        true,
                    ),
                ),
                StepView::RemoveFile { path: "/tmp/authorized_keys"@ },
            ],
        ),
    ]
}

/// Where the NixOS key installation stands, and the public key once read.
#[derive(Clone, Debug, PartialEq, Eq)]
pub struct NixosKey {
    pub phase: Phase,
    pub public_key: Option<String>,
}

pub struct NixosKeyView {
    pub phase: PhaseView,
    pub public_key: Option<Seq<char>>,
}

impl View for NixosKey {
    type V = NixosKeyView;

    open spec fn view(&self) -> NixosKeyView {
        NixosKeyView { phase: self.phase@, public_key: self.public_key.deep_view() }
    }
}

/// The NixOS key installation: generate the pair if it is missing and
/// read the public key; then put it in place of the placeholder in the
/// guest's configuration and install it as `authorized_keys`.
pub open spec fn nixos_key_of(
    app_dir: Seq<char>,
    key_name: Seq<char>,
    squashfs_root_dir: Seq<char>,
    fetched: Seq<Seq<char>>,
) -> NixosKeyView {
    if fetched.len() == 0 {
        NixosKeyView {
            phase: fetching(
                seq![
                    provided(
                        absent(app_dir + "/"@ + key_name),
                        seq![
                            run(
                                stream(
                                    "ssh-keygen"@,
                                    seq!["-f"@, app_dir + "/"@ + key_name, "-N"@, ""@],
                                    false,
                                ),
                            ),
                        ],
                    ),
                ],
                SourceView::FileContent { path: app_dir + "/"@ + key_name + ".pub"@ },
            ),
            public_key: None,
        }
    } else {
        NixosKeyView {
            phase: last(
                seq![
                    always(
                        seq![
                            run(
                                capture(
                                    "sed"@,
                                    seq![
                                        "-i"@,
                                        "s|"@ + nixos_placeholder_key() + "|"@ + trimmed(fetched[0])
                                            + "|"@,
                                        squashfs_root_dir + "/etc/nixos/configuration.nix"@,
                                    ],
                                    true,
                                ),
                            ),
                            run(
                                capture(
                                    "mkdir"@,
                                    seq!["-p"@, squashfs_root_dir + "/root/.ssh"@],
                                    true,
                                ),
                            ),
                            run(
                                capture(
                                    "cp"@,
                                    seq![
                                        app_dir + "/"@ + key_name + ".pub"@,
                                        squashfs_root_dir + "/root/.ssh/authorized_keys"@,
                                    ],
                                    true,
                                ),
                            ),
                        ],
                    ),
                ],
            ),
            public_key: Some(trimmed(fetched[0])),
        }
    }
}

/// The text by which `keys` are recognised.
pub fn keys_fingerprint_text(keys: &Vec<String>) -> (r: String)
    ensures
        r@ == keys_text(keys.deep_view()),
{
    let lines = join(keys, "\n");
    if ends_with(lines.as_str(), "\n") {
        lines
    } else {
        join2(lines.as_str(), "\n")
    }
}

/// The fingerprint of a text.
pub fn fingerprint(text: &str) -> (r: Vec<u8>)
    ensures
        r@ == fingerprint_of(text@),
{
    sha256(text.as_bytes())
}

/// Whether two fingerprints are the same.
pub fn same_fingerprint(a: &Vec<u8>, b: &Vec<u8>) -> (r: bool)
    ensures
        r == (a@ == b@),
{
    if a.len() != b.len() {
        return false;
    }
    let mut i: usize = 0;
    while i < a.len()
        invariant
            i <= a.len(),
            a.len() == b.len(),
            forall|j: int| 0 <= j < i ==> a@[j] == b@[j],
        decreases a.len() - i,
    {
        if a[i] != b[i] {
            return false;
        }
        i += 1;
    }
    assert(a@ =~= b@);
    true
}

/// Whether the image must be rebuilt for `ssh_keys`, given what
/// `authorized_keys` holds (`None` where the file is absent).
pub fn ssh_keys_changed(ssh_keys: &Option<Vec<String>>, installed: &Option<String>) -> (r: bool)
    ensures
        r == keys_changed(ssh_keys.deep_view(), installed.deep_view()),
{
    match ssh_keys {
        None => false,
        Some(keys) => match installed {
            None => true,
            Some(content) => {
                let wanted = fingerprint(keys_fingerprint_text(keys).as_str());
                let found = fingerprint(content.as_str());
                !same_fingerprint(&wanted, &found)
            },
        },
    }
}

pub fn generate_and_copy_ssh_key(app_dir: &str, key_name: &str, squashfs_root_dir: &str) -> (r:
    Vec<Block>)
    ensures
        r.deep_view() == generate_and_copy_ssh_key_script(
            app_dir@,
            key_name@,
            squashfs_root_dir@,
        ),
{
    let key = join3(app_dir, "/", key_name);
    let public = join4(app_dir, "/", key_name, ".pub");
    let authorized = join2(squashfs_root_dir, "/root/.ssh/authorized_keys");
    let mut script = script0();
    push_block(
        &mut script,
        Block::either(
            Condition::present(key.as_str()),
            steps2(
                Step::capture(
                    "mkdir",
                    argv2("-p", join2(squashfs_root_dir, "/root/.ssh").as_str()),
                    true,
                ),
                Step::capture("cp", argv2(public.as_str(), authorized.as_str()), true),
            ),
            steps2(
                Step::stream("ssh-keygen", argv4("-f", key.as_str(), "-N", ""), false),
                Step::capture("cp", argv2(public.as_str(), authorized.as_str()), true),
            ),
        ),
    );
    script
}

/// Installs the default key pair for a NixOS guest.
///
/// Called again with every value fetched so far, it says what to do next;
/// with one value or more it is complete and names the public key.
pub fn generate_and_copy_ssh_key_nixos(
    app_dir: &str,
    key_name: &str,
    squashfs_root_dir: &str,
    fetched: &Vec<String>,
) -> (r: NixosKey)
    ensures
        r@ == nixos_key_of(
            app_dir@,
            key_name@,
            squashfs_root_dir@,
            crate::prepare::downloader::first_values(fetched.deep_view(), 1),
        ),
{
    let key = join3(app_dir, "/", key_name);
    let public = join4(app_dir, "/", key_name, ".pub");
    if fetched.len() == 0 {
        let mut script = script0();
        push_block(
            &mut script,
            Block::provided(
                Condition::absent(key.as_str()),
                steps1(Step::stream("ssh-keygen", argv4("-f", key.as_str(), "-N", ""), false)),
            ),
        );
        return NixosKey {
            phase: Phase::fetching(script, Source::FileContent { path: public }),
            public_key: None,
        };
    }
    assert(fetched.deep_view()[0] == fetched[0]@);
    let public_key = trim(fetched[0].as_str());
    let mut script = script0();
    push_block(
        &mut script,
        Block::always(
            steps3(
                Step::capture(
                    "sed",
                    argv3(
                        "-i",
                        crate::text::join5(
                            "s|",
                            "ssh-ed25519 AAAAC3NzaC1lZDI1NTE5AAAAIAR4Gvuv3lTpXIYeZTRO22nVEj64uMmlDAdt5+GG80hm tsiry@tsiry-XPS-9320",
                            "|",
                            public_key.as_str(),
                            "|",
                        ).as_str(),
                        join2(squashfs_root_dir, "/etc/nixos/configuration.nix").as_str(),
                    ),
                    true,
                ),
                Step::capture(
                    "mkdir",
                    argv2("-p", join2(squashfs_root_dir, "/root/.ssh").as_str()),
                    true,
                ),
                Step::capture(
                    "cp",
                    argv2(
                        public.as_str(),
                        join2(squashfs_root_dir, "/root/.ssh/authorized_keys").as_str(),
                    ),
                    true,
                ),
            ),
        ),
    );
    NixosKey { phase: Phase::last(script), public_key: Some(public_key) }
}

/// The content of `authorized_keys` for `keys`: each key and a newline.
pub fn installed(keys: &Vec<String>) -> (r: String)
    ensures
        r@ == installed_text(keys.deep_view()),
{
    let mut out = String::new();
    let mut i: usize = 0;
    assert(out@ =~= installed_upto(keys.deep_view(), 0));
    while i < keys.len()
        invariant
            i <= keys.len(),
            out@ == installed_upto(keys.deep_view(), i as int),
        decreases keys.len() - i,
    {
        assert(keys.deep_view()[i as int] == keys[i as int]@);
        out = join3(out.as_str(), keys[i].as_str(), "\n");
        i += 1;
    }
    out
}

pub fn copy_ssh_keys(ssh_keys: &Vec<String>, squashfs_root_dir: &str) -> (r: Vec<Block>)
    ensures
        r.deep_view() == copy_ssh_keys_script(ssh_keys.deep_view(), squashfs_root_dir@),
{
    let mut script = script0();
    push_block(
        &mut script,
        Block::always(
            steps4(
                Step::capture(
                    "mkdir",
                    argv2("-p", join2(squashfs_root_dir, "/root/.ssh").as_str()),
                    true,
                ),
                Step::WriteFile {
                    path: String::from_str("/tmp/authorized_keys"),
                    content: installed(ssh_keys),
                },
                Step::capture(
                    "cp",
                    argv2(
                        "/tmp/authorized_keys",
                        join2(squashfs_root_dir, "/root/.ssh/authorized_keys").as_str(),
                    ),
                    true,
                ),
                Step::RemoveFile { path: String::from_str("/tmp/authorized_keys") },
            ),
        ),
    );
    script
}

proof fn lemma_installed_is_joined(keys: Seq<Seq<char>>, n: int)
    requires
        1 <= n <= keys.len(),
    ensures
        installed_upto(keys, n) == crate::text::joined_upto(keys, "\n"@, n) + "\n"@,
    decreases n,
{
    if n == 1 {
        assert(installed_upto(keys, 0) + keys[0] + "\n"@ =~= keys[0] + "\n"@);
    } else {
        lemma_installed_is_joined(keys, n - 1);
        assert(crate::text::joined_upto(keys, "\n"@, n - 1) + "\n"@ + keys[n - 1] + "\n"@
            =~= crate::text::joined_upto(keys, "\n"@, n) + "\n"@);
    }
}

/// Installing a list of keys and then asking for the same list changes
/// nothing: provided the list is not empty and its last key is not empty
/// and does not end in a newline, the installed text is the text by which
/// the keys are recognised, so no rebuild is asked for.
pub proof fn lemma_same_keys_keep_image(keys: Seq<Seq<char>>)
    requires
        keys.len() > 0,
        keys.last().len() > 0,
        keys.last().last() != '\n',
    ensures
        keys_text(keys) == installed_text(keys),
        !keys_changed(Some(keys), Some(installed_text(keys))),
{
    reveal_strlit("\n");
    let n = keys.len() as int;
    lemma_installed_is_joined(keys, n);
    let lines = joined(keys, "\n"@);
    assert(lines.len() > 0 && lines.last() == keys.last().last()) by {
        if n == 1 {
        } else {
            assert(lines == crate::text::joined_upto(keys, "\n"@, n - 1) + "\n"@ + keys[n - 1]);
        }
    }
    assert(!is_suffix("\n"@, lines)) by {
        if is_suffix("\n"@, lines) {
            assert(lines.subrange(lines.len() - 1, lines.len() as int)[0] == '\n');
        }
    }
}

/// Asking for keys whose fingerprint differs from that of what another
/// list installed asks for a rebuild.
pub proof fn lemma_other_keys_rebuild_image(first: Seq<Seq<char>>, second: Seq<Seq<char>>)
    requires
        fingerprint_of(keys_text(second)) != fingerprint_of(installed_text(first)),
    ensures
        keys_changed(Some(second), Some(installed_text(first))),
{
}

} // verus!

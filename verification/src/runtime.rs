//! The managed dsh runtime: settings, versioned installs and the pointer to the active one.
//!
//! ```text
//! runtime/current          the active version
//! runtime/versions/<ver>/  one install per version
//! npm-cache/               an npm cache of the application's own
//! settings.json            settings
//! ```

use vstd::prelude::*;
use vstd::string::*;

use crate::outside::json_as_str;
use crate::outside::json_get;
use crate::outside::json_member;
use crate::outside::json_text;
use crate::outside::parse_json;
use crate::outside::parsed_json;
use crate::paths::join_path;
use crate::paths::lemma_join_injective;
use crate::paths::path_join;
use crate::text::blank;
use crate::text::is_blank;
use crate::text::is_white_space;
use crate::text::law_trimmed;
use crate::text::lemma_trimmed_empty;
use crate::text::maybe_text;
use crate::text::plus;
use crate::text::result_of;
use crate::text::result_text;
use crate::text::slice_text;
use crate::text::trim;
use crate::text::trimmed;

verus! {

pub const RUNTIME_DIR: &'static str = "runtime";

pub const VERSIONS_DIR: &'static str = "versions";

pub const CURRENT_FILE: &'static str = "current";

/// The file beside the pointer that names the last version that became ready.
pub const GOOD_FILE: &'static str = "last-known-good";

pub const NPM_CACHE_DIR: &'static str = "npm-cache";

pub const SETTINGS_FILE: &'static str = "settings.json";

/// The package that is installed.
pub const PKG: &'static str = "@deepseek-ai/dsh";

/// The executable in an install.
pub const BIN_REL: &'static str = "node_modules/@deepseek-ai/dsh/lib/bin.js";

/// The manifest in an install.
pub const MANIFEST_REL: &'static str = "node_modules/@deepseek-ai/dsh/package.json";

/// What the user can set.
#[derive(Debug, Clone)]
pub struct Settings {
    pub channel: String,
    pub auto_update: bool,
    pub interval_hours: u32,
    pub registry: String,
    /// When updates were last looked for, in seconds since the epoch.
    pub last_check: Option<u64>,
    pub last_project_dir: Option<String>,
    /// What the close button does: "ask", "quit" or "background".
    pub close_action: String,
    /// How many versions before the newest one are kept.
    pub retained_versions: u32,
}

/// How many versions before the newest one are kept unless it is set.
pub const DEFAULT_RETAINED: u32 = 1;

/// What the close button does unless it is set.
pub fn default_close_action() -> (r: String)
    ensures
        r@ == "ask"@,
{
    "ask".to_owned()
}

/// The settings before anything has been set.
pub open spec fn default_settings(s: Settings) -> bool {
    &&& s.channel@ == "latest"@
    &&& s.auto_update
    &&& s.interval_hours == 12
    &&& s.registry@ == "https://registry.npmjs.org"@
    &&& s.last_check is None
    &&& s.last_project_dir is None
    &&& s.close_action@ == "ask"@
    &&& s.retained_versions == DEFAULT_RETAINED
}

impl Default for Settings {
    fn default() -> (r: Self)
        ensures
            default_settings(r),
    {
        Settings {
            channel: "latest".to_owned(),
            auto_update: true,
            interval_hours: 12,
            registry: "https://registry.npmjs.org".to_owned(),
            last_check: None,
            last_project_dir: None,
            close_action: default_close_action(),
            retained_versions: DEFAULT_RETAINED,
        }
    }
}

/// The directory of the runtime below the data directory.
pub open spec fn runtime_path(data: Seq<char>) -> Seq<char> {
    path_join(data, RUNTIME_DIR@)
}

/// The directory of the versions below the data directory.
pub open spec fn versions_path(data: Seq<char>) -> Seq<char> {
    path_join(runtime_path(data), VERSIONS_DIR@)
}

/// The directory of the runtime.
pub fn runtime_dir(data: &str) -> (r: String)
    ensures
        r@ == runtime_path(data@),
{
    join_path(data, RUNTIME_DIR)
}

/// The directory of the versions.
pub fn versions_dir(data: &str) -> (r: String)
    ensures
        r@ == versions_path(data@),
{
    join_path(runtime_dir(data).as_str(), VERSIONS_DIR)
}

/// The executable of the install in `version_dir`.
pub open spec fn bin_path(version_dir: Seq<char>) -> Seq<char> {
    path_join(version_dir, BIN_REL@)
}

/// The executable of an install.
pub fn bin_of(version_dir: &str) -> (r: String)
    ensures
        r@ == bin_path(version_dir@),
{
    join_path(version_dir, BIN_REL)
}

/// The manifest of an install.
pub fn manifest_of(version_dir: &str) -> (r: String)
    ensures
        r@ == path_join(version_dir@, MANIFEST_REL@),
{
    join_path(version_dir, MANIFEST_REL)
}

/// The text under `key` in a JSON object.
pub open spec fn text_member(value: serde_json::Value, key: Seq<char>) -> Option<Seq<char>> {
    match json_member(value, key) {
        Some(member) => json_text(member),
        None => None,
    }
}

/// Reads the text under a key in a JSON object.
pub fn json_text_at<'a>(value: &'a serde_json::Value, key: &str) -> (r: Option<&'a str>)
    ensures
        match r {
            Some(text) => text_member(*value, key@) == Some(text@),
            None => text_member(*value, key@) is None,
        },
{
    match json_get(value, key) {
        Some(member) => json_as_str(member),
        None => None,
    }
}

/// The installed version, by what reading the manifest gave: an error, or what parsing it gave:
/// an error, or its version where it has one.
pub open spec fn version_found(
    manifest: Result<Result<Option<Seq<char>>, Seq<char>>, Seq<char>>,
) -> Result<Seq<char>, Seq<char>> {
    match manifest {
        Err(e) => Err("读取已安装版本失败: "@ + e),
        Ok(Err(e)) => Err("解析 package.json 失败: "@ + e),
        Ok(Ok(None)) => Err("已安装的 dsh 缺少 version 字段"@),
        Ok(Ok(Some(version))) => Ok(version),
    }
}

/// What a manifest that was read holds.
pub open spec fn manifest_facts(manifest: Result<Seq<char>, Seq<char>>) -> Result<
    Result<Option<Seq<char>>, Seq<char>>,
    Seq<char>,
> {
    match manifest {
        Err(e) => Err(e),
        Ok(text) => match parsed_json(text) {
            Err(e) => Ok(Err(e)),
            Ok(value) => Ok(Ok(text_member(value, "version"@))),
        },
    }
}

/// The version that a manifest names, or why there is none.
pub open spec fn manifest_version(manifest: Result<Seq<char>, Seq<char>>) -> Result<
    Seq<char>,
    Seq<char>,
> {
    version_found(manifest_facts(manifest))
}

/// The texts of what a manifest holds.
pub open spec fn facts_text(
    manifest: Result<Result<Option<String>, String>, String>,
) -> Result<Result<Option<Seq<char>>, Seq<char>>, Seq<char>> {
    match manifest {
        Err(e) => Err(e@),
        Ok(Err(e)) => Ok(Err(e@)),
        Ok(Ok(version)) => Ok(Ok(maybe_text(version))),
    }
}

/// The installed version, by what reading and parsing the manifest gave.
pub fn version_in(manifest: Result<Result<Option<String>, String>, String>) -> (r: Result<
    String,
    String,
>)
    ensures
        result_text(r) == version_found(facts_text(manifest)),
{
    match manifest {
        Err(e) => Err(plus("读取已安装版本失败: ", e.as_str())),
        Ok(Err(e)) => Err(plus("解析 package.json 失败: ", e.as_str())),
        Ok(Ok(None)) => Err("已安装的 dsh 缺少 version 字段".to_owned()),
        Ok(Ok(Some(version))) => Ok(version),
    }
}

/// The installed version, by the text of the manifest.
pub fn installed_version(manifest: &Result<String, String>) -> (r: Result<String, String>)
    ensures
        result_text(r) == manifest_version(result_text(*manifest)),
{
    match manifest {
        Err(e) => version_in(Err(e.clone())),
        Ok(text) => match parse_json(text.as_str()) {
            Err(e) => version_in(Ok(Err(e))),
            Ok(value) => match json_text_at(&value, "version") {
                Some(version) => version_in(Ok(Ok(Some(version.to_owned())))),
                None => version_in(Ok(Ok(None))),
            },
        },
    }
}

/// What is found in the directory of a version: whether the executable is a file, and the text of
/// the manifest, or why it cannot be read.
#[derive(Debug)]
pub struct Install {
    pub bin_is_file: bool,
    pub manifest: Result<String, String>,
}

impl Install {
    /// The install can be run: it has its executable and a manifest with a version.
    pub open spec fn complete(self) -> bool {
        self.bin_is_file && manifest_version(result_text(self.manifest)) is Ok
    }
}

/// Whether an install can be run.
pub fn is_complete(install: &Install) -> (r: bool)
    ensures
        r == install.complete(),
{
    install.bin_is_file && match installed_version(&install.manifest) {
        Ok(_) => true,
        Err(_) => false,
    }
}

/// The version that the text of the pointer names; a blank one names none.
pub open spec fn pointed_version(pointer: Option<Seq<char>>) -> Option<Seq<char>> {
    match pointer {
        Some(text) => if is_blank(text) {
            None
        } else {
            Some(trimmed(text))
        },
        None => None,
    }
}

/// `DSH_BIN` names an executable: it is set and not blank.
pub open spec fn overrides(dsh_bin: Option<Seq<char>>) -> bool {
    dsh_bin matches Some(bin) && !is_blank(bin)
}

/// The active version: the one that the pointer names. Under `DSH_BIN` no version is active.
pub open spec fn active_version(dsh_bin: Option<Seq<char>>, pointer: Option<Seq<char>>) -> Option<
    Seq<char>,
> {
    if overrides(dsh_bin) {
        None
    } else {
        pointed_version(pointer)
    }
}

/// The version that a pointer names, by its text, where there is one.
pub fn read_current(pointer: Option<&str>) -> (r: Option<String>)
    ensures
        maybe_text(r) == pointed_version(slice_text(pointer)),
{
    match pointer {
        Some(text) => {
            proof {
                lemma_trimmed_empty(text@);
            }
            let version = trim(text);
            if version.is_empty() {
                None
            } else {
                Some(version.to_owned())
            }
        },
        None => None,
    }
}

/// The active version, by the variable `DSH_BIN` and the text of the pointer, where there is one.
pub fn current_version(dsh_bin: Option<&str>, pointer: Option<&str>) -> (r: Option<String>)
    ensures
        maybe_text(r) == active_version(slice_text(dsh_bin), slice_text(pointer)),
{
    if let Some(bin) = dsh_bin {
        if !blank(bin) {
            return None;
        }
    }
    read_current(pointer)
}

/// A file that is replaced at one stroke: its directory is created, the content is written to
/// `tmp`, and that is renamed to `target`.
#[derive(Debug)]
pub struct FileWrite {
    pub dir: String,
    pub tmp: String,
    pub target: String,
    pub content: String,
}

/// The texts of a [`FileWrite`].
#[verifier::ext_equal]
pub struct FileWriteView {
    pub dir: Seq<char>,
    pub tmp: Seq<char>,
    pub target: Seq<char>,
    pub content: Seq<char>,
}

impl View for FileWrite {
    type V = FileWriteView;

    open spec fn view(&self) -> FileWriteView {
        FileWriteView {
            dir: self.dir@,
            tmp: self.tmp@,
            target: self.target@,
            content: self.content@,
        }
    }
}

/// At which point a [`FileWrite`] failed, and why.
#[derive(Debug)]
pub enum WriteFault {
    Directory(String),
    Content(String),
    Rename(String),
}

impl FileWriteView {
    /// How the write leaves the files, by its outcome: each file is a path with its content. Until
    /// the rename only `tmp` changes, and the rename puts it in the place of `target`.
    pub open spec fn leaves(
        self,
        before: Map<Seq<char>, Seq<char>>,
        written: Result<(), WriteFault>,
        after: Map<Seq<char>, Seq<char>>,
    ) -> bool {
        match written {
            Ok(_) => after == before.remove(self.tmp).insert(self.target, self.content),
            Err(WriteFault::Directory(_)) => after == before,
            Err(WriteFault::Content(_)) => after.remove(self.tmp) == before.remove(self.tmp),
            Err(WriteFault::Rename(_)) => after == before.insert(self.tmp, self.content),
        }
    }

    /// The file is written beside its target.
    pub open spec fn beside(self) -> bool {
        self.tmp != self.target
    }
}

/// What a file holds, where it is there.
pub open spec fn content_of(files: Map<Seq<char>, Seq<char>>, path: Seq<char>) -> Option<Seq<char>> {
    if files.contains_key(path) {
        Some(files[path])
    } else {
        None
    }
}

/// A file is replaced whole or not at all: a write that succeeds leaves the new content, and one
/// that fails, at whatever point, leaves what was there. No other file is touched but the one that
/// the content is written to first.
pub proof fn law_replaced_whole(
    write: FileWriteView,
    before: Map<Seq<char>, Seq<char>>,
    written: Result<(), WriteFault>,
    after: Map<Seq<char>, Seq<char>>,
)
    requires
        write.beside(),
        write.leaves(before, written, after),
    ensures
        written is Ok ==> content_of(after, write.target) == Some(write.content),
        written is Err ==> content_of(after, write.target) == content_of(before, write.target),
        forall|path: Seq<char>|
            path != write.tmp && path != write.target ==> #[trigger] content_of(after, path)
                == content_of(before, path),
{
    if written matches Err(WriteFault::Content(_)) {
        assert forall|path: Seq<char>| path != write.tmp implies #[trigger] content_of(after, path)
            == content_of(before, path) by {
            assert(after.remove(write.tmp).contains_key(path) == after.contains_key(path));
            assert(before.remove(write.tmp).contains_key(path) == before.contains_key(path));
            if after.contains_key(path) {
                assert(after.remove(write.tmp)[path] == after[path]);
                assert(before.remove(write.tmp)[path] == before[path]);
            }
        }
    }
}

/// The pointer, the note on the last good version and the settings are each written beside their
/// target, so that they are replaced whole or not at all.
pub proof fn law_written_beside(data: Seq<char>, content: Seq<char>)
    ensures
        pointer_file(data, content).beside(),
        good_file(data, content).beside(),
        settings_file(data, content).beside(),
{
    reveal_strlit(".current.tmp");
    reveal_strlit("current");
    reveal_strlit(".last-known-good.tmp");
    reveal_strlit("last-known-good");
    reveal_strlit(".settings.tmp");
    reveal_strlit("settings.json");
    if !pointer_file(data, content).beside() {
        lemma_join_injective(runtime_path(data), ".current.tmp"@, CURRENT_FILE@);
    }
    if !good_file(data, content).beside() {
        lemma_join_injective(runtime_path(data), ".last-known-good.tmp"@, GOOD_FILE@);
    }
    if !settings_file(data, content).beside() {
        lemma_join_injective(data, ".settings.tmp"@, SETTINGS_FILE@);
        assert(".settings.tmp"@[0] != SETTINGS_FILE@[0]);
    }
}

/// The new pointer to a version.
pub open spec fn pointer_file(data: Seq<char>, version: Seq<char>) -> FileWriteView {
    FileWriteView {
        dir: runtime_path(data),
        tmp: path_join(runtime_path(data), ".current.tmp"@),
        target: path_join(runtime_path(data), CURRENT_FILE@),
        content: version,
    }
}

/// Makes the new pointer to a version.
pub fn write_current(data: &str, version: &str) -> (r: FileWrite)
    ensures
        r@ == pointer_file(data@, version@),
{
    let dir = runtime_dir(data);
    FileWrite {
        tmp: join_path(dir.as_str(), ".current.tmp"),
        target: join_path(dir.as_str(), CURRENT_FILE),
        content: version.to_owned(),
        dir,
    }
}

/// What a write of the pointer gives back: after one that succeeds, the pointer names the version
/// that was written, without the white space round it, and a blank one names none; after one that
/// fails, it names what it named before.
pub proof fn law_pointer_kept(
    data: Seq<char>,
    version: Seq<char>,
    before: Map<Seq<char>, Seq<char>>,
    written: Result<(), WriteFault>,
    after: Map<Seq<char>, Seq<char>>,
)
    requires
        pointer_file(data, version).leaves(before, written, after),
    ensures
        ({
            let path = path_join(runtime_path(data), CURRENT_FILE@);
            &&& written is Ok ==> pointed_version(content_of(after, path)) == (if is_blank(
                version,
            ) {
                None
            } else {
                Some(trimmed(version))
            })
            &&& written is Err ==> pointed_version(content_of(after, path)) == pointed_version(
                content_of(before, path),
            )
        }),
{
    law_written_beside(data, version);
    law_replaced_whole(pointer_file(data, version), before, written, after);
}

/// Plans the switch to a version: its install has to be one that can be run.
pub fn switch_plan(data: &str, version: &str, complete: bool) -> (r: Result<FileWrite, String>)
    ensures
        complete ==> (r matches Ok(w) && w@ == pointer_file(data@, version@)),
        !complete ==> (r matches Err(e) && e@ == "版本 "@ + version@ + " 安装不完整"@),
{
    if complete {
        Ok(write_current(data, version))
    } else {
        let mut reason = "版本 ".to_owned();
        reason.append(version);
        reason.append(" 安装不完整");
        Err(reason)
    }
}

/// The new note on the last version that became ready.
pub open spec fn good_file(data: Seq<char>, version: Seq<char>) -> FileWriteView {
    FileWriteView {
        dir: runtime_path(data),
        tmp: path_join(runtime_path(data), ".last-known-good.tmp"@),
        target: path_join(runtime_path(data), GOOD_FILE@),
        content: version,
    }
}

/// Makes the new note on the last version that became ready.
pub fn write_good(data: &str, version: &str) -> (r: FileWrite)
    ensures
        r@ == good_file(data@, version@),
{
    let dir = runtime_dir(data);
    FileWrite {
        tmp: join_path(dir.as_str(), ".last-known-good.tmp"),
        target: join_path(dir.as_str(), GOOD_FILE),
        content: version.to_owned(),
        dir,
    }
}

/// How the write of the pointer ended.
pub fn pointer_written(written: Result<(), WriteFault>) -> (r: Result<(), String>)
    ensures
        result_of(r) == (match written {
            Ok(_) => Ok(()),
            Err(WriteFault::Directory(e)) => Err("创建运行时目录失败: "@ + e@),
            Err(WriteFault::Content(e)) => Err("写入版本指针失败: "@ + e@),
            Err(WriteFault::Rename(e)) => Err("切换版本指针失败: "@ + e@),
        }),
{
    match written {
        Ok(_) => Ok(()),
        Err(WriteFault::Directory(e)) => Err(plus("创建运行时目录失败: ", e.as_str())),
        Err(WriteFault::Content(e)) => Err(plus("写入版本指针失败: ", e.as_str())),
        Err(WriteFault::Rename(e)) => Err(plus("切换版本指针失败: ", e.as_str())),
    }
}

/// The settings in use: those that were read, or the default where none could be read.
pub fn load_settings(read: Option<Settings>) -> (r: Settings)
    ensures
        match read {
            Some(settings) => r == settings,
            None => default_settings(r),
        },
{
    match read {
        Some(settings) => settings,
        None => Settings::default(),
    }
}

/// The new file of the settings.
pub open spec fn settings_file(data: Seq<char>, json: Seq<char>) -> FileWriteView {
    FileWriteView {
        dir: data,
        tmp: path_join(data, ".settings.tmp"@),
        target: path_join(data, SETTINGS_FILE@),
        content: json,
    }
}

/// Makes the new file of the settings, from their JSON text.
pub fn save_settings(data: &str, json: &str) -> (r: FileWrite)
    ensures
        r@ == settings_file(data@, json@),
{
    FileWrite {
        dir: data.to_owned(),
        tmp: join_path(data, ".settings.tmp"),
        target: join_path(data, SETTINGS_FILE),
        content: json.to_owned(),
    }
}

/// How turning the settings into JSON ended.
pub fn settings_encoded(json: Result<String, String>) -> (r: Result<String, String>)
    ensures
        result_text(r) == (match json {
            Ok(json) => Ok(json@),
            Err(e) => Err("序列化设置失败: "@ + e@),
        }),
{
    match json {
        Ok(json) => Ok(json),
        Err(e) => Err(plus("序列化设置失败: ", e.as_str())),
    }
}

/// How the write of the settings ended.
pub fn settings_written(written: Result<(), WriteFault>) -> (r: Result<(), String>)
    ensures
        result_of(r) == (match written {
            Ok(_) => Ok(()),
            Err(WriteFault::Directory(e)) => Err("创建应用数据目录失败: "@ + e@),
            Err(WriteFault::Content(e)) => Err("写入设置失败: "@ + e@),
            Err(WriteFault::Rename(e)) => Err("保存设置失败: "@ + e@),
        }),
{
    match written {
        Ok(_) => Ok(()),
        Err(WriteFault::Directory(e)) => Err(plus("创建应用数据目录失败: ", e.as_str())),
        Err(WriteFault::Content(e)) => Err(plus("写入设置失败: ", e.as_str())),
        Err(WriteFault::Rename(e)) => Err(plus("保存设置失败: ", e.as_str())),
    }
}

/// The settings that are read from the files, where `decode` is what their JSON text is read as.
pub open spec fn stored_settings(
    data: Seq<char>,
    files: Map<Seq<char>, Seq<char>>,
    decode: spec_fn(Seq<char>) -> Option<Settings>,
) -> Option<Settings> {
    match content_of(files, path_join(data, SETTINGS_FILE@)) {
        Some(json) => decode(json),
        None => None,
    }
}

/// What a save gives back: after one that succeeds, the settings that the saved text is read as
/// are the ones that are read, so that they are the saved ones if their text is read as them; after
/// one that fails, those are read that were read before. How JSON text is read is left open here.
pub proof fn law_settings_kept(
    data: Seq<char>,
    json: Seq<char>,
    before: Map<Seq<char>, Seq<char>>,
    written: Result<(), WriteFault>,
    after: Map<Seq<char>, Seq<char>>,
    decode: spec_fn(Seq<char>) -> Option<Settings>,
    settings: Settings,
)
    requires
        settings_file(data, json).leaves(before, written, after),
    ensures
        written is Ok ==> stored_settings(data, after, decode) == decode(json),
        written is Ok && decode(json) == Some(settings) ==> stored_settings(data, after, decode)
            == Some(settings),
        written is Err ==> stored_settings(data, after, decode) == stored_settings(
            data,
            before,
            decode,
        ),
{
    law_written_beside(data, json);
    law_replaced_whole(settings_file(data, json), before, written, after);
}

/// Where everything stands below a data directory.
pub proof fn law_places(data: Seq<char>, version: Seq<char>)
    requires
        data.len() > 0,
        data.last() != '/',
        version.len() > 0,
        version[0] != '/',
        version.last() != '/',
    ensures
        runtime_path(data) == data + "/runtime"@,
        versions_path(data) == data + "/runtime/versions"@,
        bin_path(path_join(versions_path(data), version)) == data + "/runtime/versions/"@ + version
            + "/node_modules/@deepseek-ai/dsh/lib/bin.js"@,
        pointer_file(data, version).target == data + "/runtime/current"@,
        pointer_file(data, version).dir == data + "/runtime"@,
        good_file(data, version).target == data + "/runtime/last-known-good"@,
        good_file(data, version).dir == data + "/runtime"@,
        settings_file(data, version).target == data + "/settings.json"@,
        settings_file(data, version).dir == data,
{
    reveal_strlit("/");
    reveal_strlit("runtime");
    reveal_strlit("versions");
    reveal_strlit("current");
    reveal_strlit("last-known-good");
    reveal_strlit("settings.json");
    reveal_strlit("/runtime");
    reveal_strlit("/runtime/versions");
    reveal_strlit("/runtime/versions/");
    reveal_strlit("/runtime/current");
    reveal_strlit("/runtime/last-known-good");
    reveal_strlit("/settings.json");
    reveal_strlit("node_modules/@deepseek-ai/dsh/lib/bin.js");
    reveal_strlit("/node_modules/@deepseek-ai/dsh/lib/bin.js");
    assert(runtime_path(data) =~= data + "/runtime"@);
    assert(versions_path(data) =~= data + "/runtime/versions"@);
    let dir = path_join(versions_path(data), version);
    assert(dir =~= data + "/runtime/versions/"@ + version);
    assert(dir.last() == version.last());
    assert(bin_path(dir) =~= data + "/runtime/versions/"@ + version
        + "/node_modules/@deepseek-ai/dsh/lib/bin.js"@);
    assert(pointer_file(data, version).target =~= data + "/runtime/current"@);
    assert(good_file(data, version).target =~= data + "/runtime/last-known-good"@);
    assert(settings_file(data, version).target =~= data + "/settings.json"@);
}

/// What is written is what was given: the version in the pointer and in the note on the last good
/// one, and the JSON text in the settings.
pub proof fn law_contents(data: Seq<char>, content: Seq<char>)
    ensures
        pointer_file(data, content).content == content,
        good_file(data, content).content == content,
        settings_file(data, content).content == content,
{
}

/// An install can be run exactly if its executable is a file, its manifest could be read and is
/// JSON, and that has a text under `version`; that text is the installed version, whatever it is.
pub proof fn law_complete(
    install: Install,
    text: Seq<char>,
    value: serde_json::Value,
    member: serde_json::Value,
    version: Seq<char>,
)
    ensures
        install.complete() <==> install.bin_is_file && install.manifest is Ok && parsed_json(
            install.manifest->Ok_0@,
        ) is Ok && json_member(parsed_json(install.manifest->Ok_0@)->Ok_0, "version"@) is Some
            && json_text(
            json_member(parsed_json(install.manifest->Ok_0@)->Ok_0, "version"@)->0,
        ) is Some,
        parsed_json(text) == Ok::<serde_json::Value, Seq<char>>(value) && json_member(
            value,
            "version"@,
        ) == Some(member) && json_text(member) == Some(version) ==> manifest_version(Ok(text))
            == Ok::<Seq<char>, Seq<char>>(version),
{
}

/// Each way in which there is no installed version is told apart, with the reason that was given.
pub proof fn law_no_version(e: Seq<char>, text: Seq<char>)
    ensures
        manifest_version(Err(e)) == Err::<Seq<char>, Seq<char>>("读取已安装版本失败: "@ + e),
        parsed_json(text) matches Err(reason) ==> manifest_version(Ok(text)) == Err::<
            Seq<char>,
            Seq<char>,
        >("解析 package.json 失败: "@ + reason),
        parsed_json(text) matches Ok(value) && (json_member(value, "version"@) is None || json_text(
            json_member(value, "version"@)->0,
        ) is None) ==> manifest_version(Ok(text)) == Err::<Seq<char>, Seq<char>>(
            "已安装的 dsh 缺少 version 字段"@,
        ),
{
}

/// A pointer names the text that it holds, without the white space round it; one that is missing or
/// blank names nothing. It is the active version unless `DSH_BIN` is given.
pub proof fn law_active_version(
    before: Seq<char>,
    version: Seq<char>,
    after: Seq<char>,
    blank_text: Seq<char>,
    bin: Seq<char>,
)
    requires
        is_blank(before),
        is_blank(after),
        is_blank(blank_text),
        version.len() > 0,
        !is_white_space(version[0]),
        !is_white_space(version.last()),
    ensures
        pointed_version(Some(before + version + after)) == Some(version),
        pointed_version(Some(blank_text)) is None,
        pointed_version(None) is None,
        active_version(None, Some(before + version + after)) == Some(version),
        active_version(Some(blank_text), Some(before + version + after)) == Some(version),
        !is_blank(bin) ==> active_version(Some(bin), Some(before + version + after)) is None,
{
    law_trimmed(before, version, after);
    let text = before + version + after;
    assert(text[before.len() as int] == version[0]);
    assert(!is_blank(text));
}

/// Before anything has been set, updates are looked for every twelve hours on the channel `latest` of
/// the public registry, none has been looked for yet, no directory has been chosen, the close button
/// asks, and one version before the newest is kept.
pub proof fn law_default_settings(s: Settings)
    requires
        default_settings(s),
    ensures
        s.channel@ == "latest"@,
        s.registry@ == "https://registry.npmjs.org"@,
        s.auto_update,
        s.interval_hours * 3600 == 43_200,
        s.last_check is None,
        s.last_project_dir is None,
        s.close_action@ == "ask"@,
        s.retained_versions == 1,
{
}

/// A write is shown with its places and its content as they are.
pub proof fn law_file_write_shown(x: FileWrite)
    ensures
        x@.dir == x.dir@,
        x@.tmp == x.tmp@,
        x@.target == x.target@,
        x@.content == x.content@,
{
}

/// Where everything stands, below whatever directory it is given, and where each file is written
/// before it takes the place of the one that is read.
pub proof fn law_places_below(data: Seq<char>, dir: Seq<char>, content: Seq<char>)
    ensures
        ({
            let runtime = path_join(data, "runtime"@);
            &&& runtime_path(data) == runtime
            &&& versions_path(data) == path_join(runtime, "versions"@)
            &&& pointer_file(data, content) == (FileWriteView {
                dir: runtime,
                tmp: path_join(runtime, ".current.tmp"@),
                target: path_join(runtime, "current"@),
                content,
            })
            &&& good_file(data, content) == (FileWriteView {
                dir: runtime,
                tmp: path_join(runtime, ".last-known-good.tmp"@),
                target: path_join(runtime, "last-known-good"@),
                content,
            })
            &&& settings_file(data, content).dir == data
            &&& settings_file(data, content).tmp == path_join(data, ".settings.tmp"@)
            &&& settings_file(data, content).target == path_join(data, "settings.json"@)
        }),
        bin_path(dir) == path_join(dir, "node_modules/@deepseek-ai/dsh/lib/bin.js"@),
        path_join(dir, MANIFEST_REL@) == path_join(
            dir,
            "node_modules/@deepseek-ai/dsh/package.json"@,
        ),
{
}

/// The text under a key is that of the member under that key, and there is none where there is no
/// member or it is no text.
pub proof fn law_text_member(value: serde_json::Value, key: Seq<char>, member: serde_json::Value)
    ensures
        json_member(value, key) is None ==> text_member(value, key) is None,
        json_member(value, key) == Some(member) ==> text_member(value, key) == json_text(member),
{
}

/// The installed version is the one that the manifest holds; without one the reason is told.
pub proof fn law_version_found(e: Seq<char>, version: Seq<char>)
    ensures
        version_found(Ok(Ok(Some(version)))) == Ok::<Seq<char>, Seq<char>>(version),
        version_found(Ok(Ok(None))) == Err::<Seq<char>, Seq<char>>("已安装的 dsh 缺少 version 字段"@),
        version_found(Ok(Err(e))) == Err::<Seq<char>, Seq<char>>("解析 package.json 失败: "@ + e),
        version_found(Err(e)) == Err::<Seq<char>, Seq<char>>("读取已安装版本失败: "@ + e),
{
}

} // verus!

//! Bringing the arthas package to a host or into a pod.

use vstd::prelude::*;

use crate::exec::k8s;
use crate::exec::ssh;
use crate::flow::{Action, Output, Reply, Site};
use crate::ids;
use crate::provision::package;
use crate::provision::package::{
    Answer, Bins, JvmProbe, ProvisionError, ProvisionResult, StageTimeouts, Task,
};
use crate::text;

verus! {

/// The version of the package.
pub const ARTHAS_VERSION: &'static str = "4.3.5";

/// The tool that progress is reported for.
pub const ARTHAS_TOOL_NAME: &'static str = "arthas_open";

/// The directory for tools on a host.
pub const REMOTE_TOOLS_DIR: &'static str = "/tmp/friday-tools";

/// How many bytes the package has at least.
pub const ARTHAS_ZIP_MIN_BYTES: u64 = 5242880;

/// The package manager of arthas.
#[derive(Clone, Copy, Debug, PartialEq, Eq)]
pub struct ArthasPackage;

// ---------------------------------------------------------------------------------------------
// Commands and messages
// ---------------------------------------------------------------------------------------------

/// Where the package lies on a host.
pub open spec fn home() -> Seq<char> {
    REMOTE_TOOLS_DIR@ + "/arthas-"@ + ARTHAS_VERSION@
}

/// Where the package lies on a host.
pub fn arthas_home() -> (r: String)
    ensures
        r@ == home(),
{
    REMOTE_TOOLS_DIR.to_owned().concat("/arthas-").concat(ARTHAS_VERSION)
}

/// The program of the package on a host.
pub open spec fn boot_jar() -> Seq<char> {
    home() + "/arthas-boot.jar"@
}

/// The program of the package on a host.
fn boot_jar_text() -> (r: String)
    ensures
        r@ == boot_jar(),
{
    arthas_home().concat("/arthas-boot.jar")
}

/// Finds out whether the package is on the host.
pub open spec fn host_check() -> Seq<char> {
    "mkdir -p "@ + REMOTE_TOOLS_DIR@ + " && test -f "@ + boot_jar()
}

/// Finds out whether the package is on the host.
fn host_check_text() -> (r: String)
    ensures
        r@ == host_check(),
{
    "mkdir -p ".to_owned()
        .concat(REMOTE_TOOLS_DIR)
        .concat(" && test -f ")
        .concat(boot_jar_text().as_str())
}

/// Where the archive goes on a host.
pub open spec fn host_zip() -> Seq<char> {
    REMOTE_TOOLS_DIR@ + "/arthas-bin-"@ + ARTHAS_VERSION@ + ".zip"@
}

/// Where the archive goes on a host.
fn host_zip_text() -> (r: String)
    ensures
        r@ == host_zip(),
{
    REMOTE_TOOLS_DIR.to_owned().concat("/arthas-bin-").concat(ARTHAS_VERSION).concat(".zip")
}

/// Unpacks the archive on a host with `unzip`, or with python where there is none, and moves
/// the directory that holds the boot program into place.
pub open spec fn host_extract() -> Seq<char> {
    "cd "@ + REMOTE_TOOLS_DIR@ + " && rm -rf arthas-tmp-"@ + ARTHAS_VERSION@ + " arthas-"@
        + ARTHAS_VERSION@ + " && mkdir arthas-tmp-"@ + ARTHAS_VERSION@
        + " && if command -v unzip >/dev/null 2>&1; then unzip -q -o arthas-bin-"@
        + ARTHAS_VERSION@ + ".zip -d arthas-tmp-"@ + ARTHAS_VERSION@
        + "/; elif command -v python3 >/dev/null 2>&1; then python3 -m zipfile -e arthas-bin-"@
        + ARTHAS_VERSION@ + ".zip arthas-tmp-"@ + ARTHAS_VERSION@
        + "/; else echo 'neither unzip nor python3 available' >&2; exit 3; fi && d=$(dirname \"$(find arthas-tmp-"@
        + ARTHAS_VERSION@
        + " -name arthas-boot.jar | head -1)\") && [ -n \"$d\" ] && mv \"$d\" arthas-"@
        + ARTHAS_VERSION@ + " && rm -rf arthas-tmp-"@ + ARTHAS_VERSION@ + " arthas-bin-"@
        + ARTHAS_VERSION@ + ".zip && chmod -R 755 arthas-"@ + ARTHAS_VERSION@
}

/// Unpacks the archive on a host with `unzip`, or with python where there is none, and moves
/// the directory that holds the boot program into place.
fn host_extract_text() -> (r: String)
    ensures
        r@ == host_extract(),
{
    "cd ".to_owned()
        .concat(REMOTE_TOOLS_DIR)
        .concat(" && rm -rf arthas-tmp-")
        .concat(ARTHAS_VERSION)
        .concat(" arthas-")
        .concat(ARTHAS_VERSION)
        .concat(" && mkdir arthas-tmp-")
        .concat(ARTHAS_VERSION)
        .concat(" && if command -v unzip >/dev/null 2>&1; then unzip -q -o arthas-bin-")
        .concat(ARTHAS_VERSION)
        .concat(".zip -d arthas-tmp-")
        .concat(ARTHAS_VERSION)
        .concat("/; elif command -v python3 >/dev/null 2>&1; then python3 -m zipfile -e arthas-bin-")
        .concat(ARTHAS_VERSION)
        .concat(".zip arthas-tmp-")
        .concat(ARTHAS_VERSION)
        .concat("/; else echo 'neither unzip nor python3 available' >&2; exit 3; fi && d=$(dirname \"$(find arthas-tmp-")
        .concat(ARTHAS_VERSION)
        .concat(" -name arthas-boot.jar | head -1)\") && [ -n \"$d\" ] && mv \"$d\" arthas-")
        .concat(ARTHAS_VERSION)
        .concat(" && rm -rf arthas-tmp-")
        .concat(ARTHAS_VERSION)
        .concat(" arthas-bin-")
        .concat(ARTHAS_VERSION)
        .concat(".zip && chmod -R 755 arthas-")
        .concat(ARTHAS_VERSION)
}

/// Removes what an unpacking that failed left on a host.
pub open spec fn host_discard() -> Seq<char> {
    "rm -rf "@ + REMOTE_TOOLS_DIR@ + "/arthas-tmp-"@ + ARTHAS_VERSION@ + " "@
        + REMOTE_TOOLS_DIR@ + "/arthas-"@ + ARTHAS_VERSION@
}

/// Removes what an unpacking that failed left on a host.
fn host_discard_text() -> (r: String)
    ensures
        r@ == host_discard(),
{
    "rm -rf ".to_owned()
        .concat(REMOTE_TOOLS_DIR)
        .concat("/arthas-tmp-")
        .concat(ARTHAS_VERSION)
        .concat(" ")
        .concat(REMOTE_TOOLS_DIR)
        .concat("/arthas-")
        .concat(ARTHAS_VERSION)
}

/// Finds out whether the unpacking gave the boot program.
pub open spec fn host_verify() -> Seq<char> {
    "test -f "@ + boot_jar()
}

/// Finds out whether the unpacking gave the boot program.
fn host_verify_text() -> (r: String)
    ensures
        r@ == host_verify(),
{
    "test -f ".to_owned().concat(boot_jar_text().as_str())
}

pub open spec fn checking() -> Seq<char> {
    "checking "@ + boot_jar()
}

fn checking_text() -> (r: String)
    ensures
        r@ == checking(),
{
    "checking ".to_owned().concat(boot_jar_text().as_str())
}

pub open spec fn uploading() -> Seq<char> {
    "uploading arthas-bin-"@ + ARTHAS_VERSION@ + ".zip via sftp"@
}

fn uploading_text() -> (r: String)
    ensures
        r@ == uploading(),
{
    "uploading arthas-bin-".to_owned().concat(ARTHAS_VERSION).concat(".zip via sftp")
}

pub open spec fn extracting() -> Seq<char> {
    "extracting arthas-bin-"@ + ARTHAS_VERSION@ + ".zip"@
}

fn extracting_text() -> (r: String)
    ensures
        r@ == extracting(),
{
    "extracting arthas-bin-".to_owned().concat(ARTHAS_VERSION).concat(".zip")
}

pub open spec fn verifying() -> Seq<char> {
    "verifying "@ + boot_jar()
}

fn verifying_text() -> (r: String)
    ensures
        r@ == verifying(),
{
    "verifying ".to_owned().concat(boot_jar_text().as_str())
}

pub open spec fn not_shipped() -> Seq<char> {
    "arthas 工具包未随应用分发（resources/arthas/arthas-bin-"@ + ARTHAS_VERSION@ + ".zip），请重新安装 Friday"@
}

fn not_shipped_text() -> (r: String)
    ensures
        r@ == not_shipped(),
{
    "arthas 工具包未随应用分发（resources/arthas/arthas-bin-".to_owned()
        .concat(ARTHAS_VERSION)
        .concat(".zip），请重新安装 Friday")
}

pub open spec fn unzip_failed(code: i32, stderr: Seq<char>) -> Seq<char> {
    "unzip failed (exit "@ + text::signed_dec(code as int) + "): "@ + stderr
        + " —— 目标机需要 unzip 或 python3 之一"@
}

fn unzip_failed_text(code: i32, stderr: &str) -> (r: String)
    ensures
        r@ == unzip_failed(code, stderr@),
{
    "unzip failed (exit ".to_owned()
        .concat(text::i64_text(code as i64).as_str())
        .concat("): ")
        .concat(stderr)
        .concat(" —— 目标机需要 unzip 或 python3 之一")
}

pub open spec fn boot_missing() -> Seq<char> {
    "arthas-boot.jar missing after extract; check vendored arthas-bin-"@ + ARTHAS_VERSION@
        + ".zip package layout"@
}

fn boot_missing_text() -> (r: String)
    ensures
        r@ == boot_missing(),
{
    "arthas-boot.jar missing after extract; check vendored arthas-bin-".to_owned()
        .concat(ARTHAS_VERSION)
        .concat(".zip package layout")
}

/// Where the package lies in a pod.
pub open spec fn dist() -> Seq<char> {
    k8s::POD_TOOLS_DIR@ + "/arthas-dist"@
}

/// Where the package lies in a pod.
pub fn dist_text() -> (r: String)
    ensures
        r@ == dist(),
{
    k8s::POD_TOOLS_DIR.to_owned().concat("/arthas-dist")
}

/// Finds out, from the host, whether the package is in the pod.
pub open spec fn pod_check(pod: Seq<char>, container: Option<Seq<char>>) -> Seq<char> {
    "kubectl exec "@ + k8s::container_flag(container) + ssh::shell_quote(pod) + " -- test -f "@
        + ssh::shell_quote(dist() + "/arthas-boot.jar"@)
}

/// Finds out, from the host, whether the package is in the pod.
fn pod_check_text(pod: &str, container: Option<&str>) -> (r: String)
    ensures
        r@ == pod_check(pod@, text::opt_str(container)),
{
    "kubectl exec ".to_owned()
        .concat(k8s::container_flag_text(container).as_str())
        .concat(ssh::shell_quote_single(pod).as_str())
        .concat(" -- test -f ")
        .concat(ssh::shell_quote_single(dist_text().concat("/arthas-boot.jar").as_str()).as_str())
}

/// The directory of the host that the package passes through.
pub open spec fn staging_dir(id: Seq<char>) -> Seq<char> {
    k8s::STAGING_DIR@ + "/arthas-"@ + id
}

/// The directory of the host that the package passes through.
fn staging_dir_text(id: &str) -> (r: String)
    ensures
        r@ == staging_dir(id@),
{
    k8s::STAGING_DIR.to_owned().concat("/arthas-").concat(id)
}

/// Makes the staging directory.
pub open spec fn make_staging(staging: Seq<char>) -> Seq<char> {
    "mkdir -p "@ + ssh::shell_quote(staging)
}

/// Makes the staging directory.
fn make_staging_text(staging: &str) -> (r: String)
    ensures
        r@ == make_staging(staging@),
{
    "mkdir -p ".to_owned().concat(ssh::shell_quote_single(staging).as_str())
}

/// Removes the staging directory.
pub open spec fn remove_staging(staging: Seq<char>) -> Seq<char> {
    "rm -rf "@ + ssh::shell_quote(staging)
}

/// Removes the staging directory.
fn remove_staging_text(staging: &str) -> (r: String)
    ensures
        r@ == remove_staging(staging@),
{
    "rm -rf ".to_owned().concat(ssh::shell_quote_single(staging).as_str())
}

/// Unpacks the archive on the host and packs it again in a form that a container can unpack.
pub open spec fn pack(staging: Seq<char>) -> Seq<char> {
    "cd "@ + ssh::shell_quote(staging)
        + " && unzip -oq arthas.zip -d unzipped && tar czf arthas.tar.gz -C unzipped ."@
}

/// Unpacks the archive on the host and packs it again in a form that a container can unpack.
fn pack_text(staging: &str) -> (r: String)
    ensures
        r@ == pack(staging@),
{
    "cd ".to_owned()
        .concat(ssh::shell_quote_single(staging).as_str())
        .concat(" && unzip -oq arthas.zip -d unzipped && tar czf arthas.tar.gz -C unzipped .")
}

/// Feeds the packed files to `tar` in the container.
pub open spec fn inject(pod: Seq<char>, container: Option<Seq<char>>, staging: Seq<char>) -> Seq<char> {
    "kubectl exec -i "@ + k8s::container_flag(container) + ssh::shell_quote(pod) + " -- sh -c "@
        + ssh::shell_quote("mkdir -p "@ + ssh::shell_quote(dist()) + " && tar xz -C "@ + ssh::shell_quote(dist()))
        + " < "@ + ssh::shell_quote(staging + "/arthas.tar.gz"@)
}

/// Feeds the packed files to `tar` in the container.
fn inject_text(pod: &str, container: Option<&str>, staging: &str) -> (r: String)
    ensures
        r@ == inject(pod@, text::opt_str(container), staging@),
{
    "kubectl exec -i ".to_owned()
        .concat(k8s::container_flag_text(container).as_str())
        .concat(ssh::shell_quote_single(pod).as_str())
        .concat(" -- sh -c ")
        .concat(ssh::shell_quote_single("mkdir -p ".to_owned().concat(ssh::shell_quote_single(dist_text().as_str()).as_str()).concat(" && tar xz -C ").concat(ssh::shell_quote_single(dist_text().as_str()).as_str()).as_str()).as_str())
        .concat(" < ")
        .concat(ssh::shell_quote_single(staging.to_owned().concat("/arthas.tar.gz").as_str()).as_str())
}

/// Gives the files in the container to the group.
pub open spec fn regroup(pod: Seq<char>, container: Option<Seq<char>>) -> Seq<char> {
    "kubectl exec "@ + k8s::container_flag(container) + ssh::shell_quote(pod) + " -- sh -c "@
        + ssh::shell_quote("chgrp -R "@ + k8s::OSS_GROUP@ + " "@ + ssh::shell_quote(dist()) + " && chmod -R g+rX "@ + ssh::shell_quote(dist()))
}

/// Gives the files in the container to the group.
fn regroup_text(pod: &str, container: Option<&str>) -> (r: String)
    ensures
        r@ == regroup(pod@, text::opt_str(container)),
{
    "kubectl exec ".to_owned()
        .concat(k8s::container_flag_text(container).as_str())
        .concat(ssh::shell_quote_single(pod).as_str())
        .concat(" -- sh -c ")
        .concat(ssh::shell_quote_single("chgrp -R ".to_owned().concat(k8s::OSS_GROUP).concat(" ").concat(ssh::shell_quote_single(dist_text().as_str()).as_str()).concat(" && chmod -R g+rX ").concat(ssh::shell_quote_single(dist_text().as_str()).as_str()).as_str()).as_str())
}

/// Removes the package from the container.
pub open spec fn remove_dist(pod: Seq<char>, container: Option<Seq<char>>) -> Seq<char> {
    "kubectl exec "@ + k8s::container_flag(container) + ssh::shell_quote(pod) + " -- rm -rf "@
        + ssh::shell_quote(dist())
}

/// Removes the package from the container.
fn remove_dist_text(pod: &str, container: Option<&str>) -> (r: String)
    ensures
        r@ == remove_dist(pod@, text::opt_str(container)),
{
    "kubectl exec ".to_owned()
        .concat(k8s::container_flag_text(container).as_str())
        .concat(ssh::shell_quote_single(pod).as_str())
        .concat(" -- rm -rf ")
        .concat(ssh::shell_quote_single(dist_text().as_str()).as_str())
}

pub open spec fn check_lost(pod: Seq<char>, e: Seq<char>) -> Seq<char> {
    "kubectl exec 缓存检查失败（pod "@ + pod + "）: "@ + e
}

fn check_lost_text(pod: &str, e: &str) -> (r: String)
    ensures
        r@ == check_lost(pod@, e@),
{
    "kubectl exec 缓存检查失败（pod ".to_owned().concat(pod).concat("）: ").concat(e)
}

pub open spec fn mkdir_lost(pod: Seq<char>, staging: Seq<char>, e: Seq<char>) -> Seq<char> {
    "宿主机 staging 目录创建失败（pod "@ + pod + "，"@ + staging + "）: "@ + e
}

fn mkdir_lost_text(pod: &str, staging: &str, e: &str) -> (r: String)
    ensures
        r@ == mkdir_lost(pod@, staging@, e@),
{
    "宿主机 staging 目录创建失败（pod ".to_owned()
        .concat(pod)
        .concat("，")
        .concat(staging)
        .concat("）: ")
        .concat(e)
}

pub open spec fn mkdir_failed(pod: Seq<char>, code: i32, stderr: Seq<char>) -> Seq<char> {
    "宿主机 staging 目录创建失败（pod "@ + pod + "，exit "@ + text::signed_dec(code as int) + "）: "@
        + stderr
}

fn mkdir_failed_text(pod: &str, code: i32, stderr: &str) -> (r: String)
    ensures
        r@ == mkdir_failed(pod@, code, stderr@),
{
    "宿主机 staging 目录创建失败（pod ".to_owned()
        .concat(pod)
        .concat("，exit ")
        .concat(text::i64_text(code as i64).as_str())
        .concat("）: ")
        .concat(stderr)
}

pub open spec fn send_failed(pod: Seq<char>, staging: Seq<char>, e: Seq<char>) -> Seq<char> {
    "arthas zip SFTP 上传宿主机失败（pod "@ + pod + "，"@ + staging + "/arthas.zip）: "@ + e
}

fn send_failed_text(pod: &str, staging: &str, e: &str) -> (r: String)
    ensures
        r@ == send_failed(pod@, staging@, e@),
{
    "arthas zip SFTP 上传宿主机失败（pod ".to_owned()
        .concat(pod)
        .concat("，")
        .concat(staging)
        .concat("/arthas.zip）: ")
        .concat(e)
}

pub open spec fn pack_lost(pod: Seq<char>, e: Seq<char>) -> Seq<char> {
    "宿主机解包/打包失败（pod "@ + pod + "）: "@ + e
}

fn pack_lost_text(pod: &str, e: &str) -> (r: String)
    ensures
        r@ == pack_lost(pod@, e@),
{
    "宿主机解包/打包失败（pod ".to_owned().concat(pod).concat("）: ").concat(e)
}

pub open spec fn pack_failed(pod: Seq<char>, code: i32, stderr: Seq<char>) -> Seq<char> {
    "宿主机解包/打包失败（pod "@ + pod + "，exit "@ + text::signed_dec(code as int) + "）: "@ + stderr
        + " —— 宿主机需要 unzip 与 tar（宿主机环境问题，非容器问题）"@
}

fn pack_failed_text(pod: &str, code: i32, stderr: &str) -> (r: String)
    ensures
        r@ == pack_failed(pod@, code, stderr@),
{
    "宿主机解包/打包失败（pod ".to_owned()
        .concat(pod)
        .concat("，exit ")
        .concat(text::i64_text(code as i64).as_str())
        .concat("）: ")
        .concat(stderr)
        .concat(" —— 宿主机需要 unzip 与 tar（宿主机环境问题，非容器问题）")
}

pub open spec fn inject_lost(pod: Seq<char>, e: Seq<char>) -> Seq<char> {
    "tar 注入容器执行失败（pod "@ + pod + "）: "@ + e
}

fn inject_lost_text(pod: &str, e: &str) -> (r: String)
    ensures
        r@ == inject_lost(pod@, e@),
{
    "tar 注入容器执行失败（pod ".to_owned().concat(pod).concat("）: ").concat(e)
}

pub open spec fn inject_failed(pod: Seq<char>, code: i32, stderr: Seq<char>) -> Seq<char> {
    "tar 注入容器失败（pod "@ + pod + "，exit "@ + text::signed_dec(code as int) + "）: "@ + stderr
}

fn inject_failed_text(pod: &str, code: i32, stderr: &str) -> (r: String)
    ensures
        r@ == inject_failed(pod@, code, stderr@),
{
    "tar 注入容器失败（pod ".to_owned()
        .concat(pod)
        .concat("，exit ")
        .concat(text::i64_text(code as i64).as_str())
        .concat("）: ")
        .concat(stderr)
}

pub open spec fn regroup_lost(pod: Seq<char>, e: Seq<char>) -> Seq<char> {
    "chgrp "@ + k8s::OSS_GROUP@ + " 执行失败（pod "@ + pod + "）: "@ + e
}

fn regroup_lost_text(pod: &str, e: &str) -> (r: String)
    ensures
        r@ == regroup_lost(pod@, e@),
{
    "chgrp ".to_owned()
        .concat(k8s::OSS_GROUP)
        .concat(" 执行失败（pod ")
        .concat(pod)
        .concat("）: ")
        .concat(e)
}

pub open spec fn regroup_failed(pod: Seq<char>, code: i32, stderr: Seq<char>) -> Seq<char> {
    "chgrp "@ + k8s::OSS_GROUP@ + " 失败（pod "@ + pod + "，exit "@ + text::signed_dec(code as int)
        + "）: "@ + stderr + " —— exec 用户可能不在 "@ + k8s::OSS_GROUP@ + " 组"@
}

fn regroup_failed_text(pod: &str, code: i32, stderr: &str) -> (r: String)
    ensures
        r@ == regroup_failed(pod@, code, stderr@),
{
    "chgrp ".to_owned()
        .concat(k8s::OSS_GROUP)
        .concat(" 失败（pod ")
        .concat(pod)
        .concat("，exit ")
        .concat(text::i64_text(code as i64).as_str())
        .concat("）: ")
        .concat(stderr)
        .concat(" —— exec 用户可能不在 ")
        .concat(k8s::OSS_GROUP)
        .concat(" 组")
}

pub open spec fn verify_lost(pod: Seq<char>, e: Seq<char>) -> Seq<char> {
    "验证命令执行失败（pod "@ + pod + "）: "@ + e
}

fn verify_lost_text(pod: &str, e: &str) -> (r: String)
    ensures
        r@ == verify_lost(pod@, e@),
{
    "验证命令执行失败（pod ".to_owned().concat(pod).concat("）: ").concat(e)
}

pub open spec fn verify_failed(pod: Seq<char>, code: i32, stderr: Seq<char>) -> Seq<char> {
    "注入后 arthas-boot.jar 缺失（pod "@ + pod + "，exit "@ + text::signed_dec(code as int) + "）: "@
        + stderr + " —— 检查 vendored arthas zip 包布局"@
}

fn verify_failed_text(pod: &str, code: i32, stderr: &str) -> (r: String)
    ensures
        r@ == verify_failed(pod@, code, stderr@),
{
    "注入后 arthas-boot.jar 缺失（pod ".to_owned()
        .concat(pod)
        .concat("，exit ")
        .concat(text::i64_text(code as i64).as_str())
        .concat("）: ")
        .concat(stderr)
        .concat(" —— 检查 vendored arthas zip 包布局")
}

/// The package at its place.
pub open spec fn ready(cached: bool, tool_home: Seq<char>) -> ProvisionResult<Seq<char>> {
    ProvisionResult {
        tool: "arthas"@,
        cached,
        java_version: Seq::empty(),
        bisheng_version: Seq::empty(),
        arch: Seq::empty(),
        tool_home,
        bins: Bins::Nothing,
    }
}

fn ready_result(cached: bool, tool_home: String) -> (r: ProvisionResult<String>)
    ensures
        r@ == ready(cached, tool_home@),
{
    ProvisionResult {
        tool: "arthas".to_owned(),
        cached,
        java_version: String::new(),
        bisheng_version: String::new(),
        arch: String::new(),
        tool_home,
        bins: Bins::Nothing,
    }
}

/// The package is not on this machine.
pub open spec fn missing_error() -> ProvisionError<Seq<char>> {
    package::error("vendored_package_missing"@, "vendored_package"@, not_shipped())
}

fn missing() -> (r: ProvisionError<String>)
    ensures
        r@ == missing_error(),
{
    ProvisionError::new("vendored_package_missing", "vendored_package", not_shipped_text())
}

/// The package on this machine is broken.
pub open spec fn corrupt_error(e: Seq<char>) -> ProvisionError<Seq<char>> {
    package::error("vendored_package_corrupt"@, "vendored_package"@, e)
}

/// The provisioning failed in a stage.
pub open spec fn failed_in(stage: Seq<char>, message: Seq<char>) -> ProvisionError<Seq<char>> {
    package::error("provision_failed"@, stage, message)
}

fn failed(stage: &str, message: String) -> (r: ProvisionError<String>)
    ensures
        r@ == failed_in(stage@, message@),
{
    ProvisionError::new("provision_failed", stage, message)
}

impl ArthasPackage {
    /// The name of the tool.
    pub fn name(&self) -> (r: &'static str)
        ensures
            r@ == "arthas"@,
    {
        "arthas"
    }

    /// What the package needs to know of the JVM: nothing.
    pub fn probe(&self) -> (r: JvmProbe<String>)
        ensures
            r@ == (JvmProbe {
                openjdk_version: Seq::<char>::empty(),
                bisheng_version: Seq::<char>::empty(),
                arch: Seq::<char>::empty(),
            }),
    {
        JvmProbe {
            openjdk_version: String::new(),
            bisheng_version: String::new(),
            arch: String::new(),
        }
    }

    /// Begins to bring the package to a host.
    pub fn ensure(&self, zip: Option<&str>, timeouts: StageTimeouts) -> (r: HostEnsure<String>)
        ensures
            r@ == host_start(text::opt_str(zip), timeouts),
    {
        HostEnsure {
            zip: text::own_opt(zip),
            timeouts,
            told: false,
            stage: HostStage::CheckCache,
        }
    }

    /// Begins to bring the package into a pod, over a staging directory of a name that no other
    /// provisioning has.
    pub fn ensure_k8s(&self, pod: &str, container: Option<&str>, zip: Option<&str>) -> (r: PodEnsure<
        String,
    >)
        ensures
            exists|id: Seq<char>| #[trigger]
                ids::is_uuid(id) && r@ == pod_start(
                    pod@,
                    text::opt_str(container),
                    text::opt_str(zip),
                    id,
                ),
    {
        let id: String = ids::fresh_uuid();
        self.ensure_k8s_over(pod, container, zip, id.as_str())
    }

    /// Begins to bring the package into a pod, over a staging directory named after `id`.
    pub fn ensure_k8s_over(
        &self,
        pod: &str,
        container: Option<&str>,
        zip: Option<&str>,
        id: &str,
    ) -> (r: PodEnsure<String>)
        ensures
            r@ == pod_start(pod@, text::opt_str(container), text::opt_str(zip), id@),
    {
        PodEnsure {
            pod: pod.to_owned(),
            container: text::own_opt(container),
            zip: text::own_opt(zip),
            staging: staging_dir_text(id),
            stage: PodStage::CheckCache,
        }
    }
}

// ---------------------------------------------------------------------------------------------
// Into a pod
// ---------------------------------------------------------------------------------------------

/// Where the way into a pod stands.
#[derive(Debug, PartialEq, Eq)]
pub enum PodStage<S> {
    /// Is the package in the pod?
    CheckCache,
    /// Is the archive on this machine whole?
    CheckZip,
    /// Make the staging directory.
    MakeStaging,
    /// Copy the archive to the host.
    Send,
    /// Unpack it and pack it again.
    Pack,
    /// Feed it to the container.
    Inject,
    /// Give the files to the group.
    Regroup,
    /// Is the package in the pod now?
    Verify,
    /// Remove the staging directory.
    CleanUp,
    /// Remove what arrived in the container, then the staging directory, then fail.
    RemoveDist { error: ProvisionError<S> },
    /// Remove the staging directory, then fail.
    RemoveStaging { error: ProvisionError<S> },
    /// It is over.
    Ended { result: Result<ProvisionResult<S>, ProvisionError<S>> },
}

/// The way of the package into a pod.
#[derive(Debug, PartialEq, Eq)]
pub struct PodEnsure<S> {
    pub pod: S,
    pub container: Option<S>,
    /// The archive on this machine, where there is one.
    pub zip: Option<S>,
    /// The staging directory on the host.
    pub staging: S,
    pub stage: PodStage<S>,
}

impl View for PodStage<String> {
    type V = PodStage<Seq<char>>;

    open spec fn view(&self) -> PodStage<Seq<char>> {
        match *self {
            PodStage::CheckCache => PodStage::CheckCache,
            PodStage::CheckZip => PodStage::CheckZip,
            PodStage::MakeStaging => PodStage::MakeStaging,
            PodStage::Send => PodStage::Send,
            PodStage::Pack => PodStage::Pack,
            PodStage::Inject => PodStage::Inject,
            PodStage::Regroup => PodStage::Regroup,
            PodStage::Verify => PodStage::Verify,
            PodStage::CleanUp => PodStage::CleanUp,
            PodStage::RemoveDist { error } => PodStage::RemoveDist { error: error@ },
            PodStage::RemoveStaging { error } => PodStage::RemoveStaging { error: error@ },
            PodStage::Ended { result } => PodStage::Ended {
                result: package::view_outcome(result),
            },
        }
    }
}

impl View for PodEnsure<String> {
    type V = PodEnsure<Seq<char>>;

    open spec fn view(&self) -> PodEnsure<Seq<char>> {
        PodEnsure {
            pod: self.pod@,
            container: text::opt(self.container),
            zip: text::opt(self.zip),
            staging: self.staging@,
            stage: self.stage@,
        }
    }
}

/// The way into a pod before its first step.
pub open spec fn pod_start(
    pod: Seq<char>,
    container: Option<Seq<char>>,
    zip: Option<Seq<char>>,
    id: Seq<char>,
) -> PodEnsure<Seq<char>> {
    PodEnsure { pod, container, zip, staging: staging_dir(id), stage: PodStage::CheckCache }
}

/// The archive on this machine; empty where there is none.
pub open spec fn zip_path(zip: Option<Seq<char>>) -> Seq<char> {
    match zip {
        Some(z) => z,
        None => Seq::empty(),
    }
}

/// What the way into a pod asks for where it stands.
pub open spec fn pod_request(p: PodEnsure<Seq<char>>) -> Action<Seq<char>> {
    match p.stage {
        PodStage::CheckCache => k8s::on_host(pod_check(p.pod, p.container)),
        PodStage::CheckZip => Action::CheckFile {
            path: zip_path(p.zip),
            min_bytes: ARTHAS_ZIP_MIN_BYTES,
        },
        PodStage::MakeStaging => k8s::on_host(make_staging(p.staging)),
        PodStage::Send => Action::Upload {
            site: Site::Host,
            local: zip_path(p.zip),
            remote: p.staging + "/arthas.zip"@,
        },
        PodStage::Pack => k8s::on_host(pack(p.staging)),
        PodStage::Inject => k8s::on_host(inject(p.pod, p.container, p.staging)),
        PodStage::Regroup => k8s::on_host(regroup(p.pod, p.container)),
        PodStage::Verify => k8s::on_host(pod_check(p.pod, p.container)),
        PodStage::CleanUp => k8s::on_host(remove_staging(p.staging)),
        PodStage::RemoveDist { error } => k8s::on_host(remove_dist(p.pod, p.container)),
        PodStage::RemoveStaging { error } => k8s::on_host(remove_staging(p.staging)),
        PodStage::Ended { result } => Action::Finished,
    }
}

/// An end in failure.
pub open spec fn pod_failed(error: ProvisionError<Seq<char>>) -> PodStage<Seq<char>> {
    PodStage::Ended { result: Err(error) }
}

/// The stage that the way into a pod reaches by a reply.
pub open spec fn pod_next(p: PodEnsure<Seq<char>>, reply: Reply<Seq<char>>) -> PodStage<Seq<char>> {
    match (p.stage, reply) {
        (PodStage::CheckCache, Reply::Ran { ran: Err(e), late }) => pod_failed(
            failed_in("check_cache"@, check_lost(p.pod, e)),
        ),
        (PodStage::CheckCache, Reply::Ran { ran: Ok(out), late }) => if out.exit_code == 0 {
            PodStage::Ended { result: Ok(ready(true, dist())) }
        } else if p.zip is Some {
            PodStage::CheckZip
        } else {
            pod_failed(missing_error())
        },
        (PodStage::CheckZip, Reply::Done { done: Err(e), late }) => pod_failed(corrupt_error(e)),
        (PodStage::CheckZip, Reply::Done { done: Ok(_), late }) => PodStage::MakeStaging,
        (PodStage::MakeStaging, Reply::Ran { ran: Err(e), late }) => pod_failed(
            failed_in("staging"@, mkdir_lost(p.pod, p.staging, e)),
        ),
        (PodStage::MakeStaging, Reply::Ran { ran: Ok(out), late }) => if out.exit_code == 0 {
            PodStage::Send
        } else {
            pod_failed(failed_in("staging"@, mkdir_failed(p.pod, out.exit_code, out.stderr)))
        },
        (PodStage::Send, Reply::Done { done: Err(e), late }) => PodStage::RemoveStaging {
            error: failed_in("upload"@, send_failed(p.pod, p.staging, e)),
        },
        (PodStage::Send, Reply::Done { done: Ok(_), late }) => PodStage::Pack,
        (PodStage::Pack, Reply::Ran { ran: Err(e), late }) => PodStage::RemoveStaging {
            error: failed_in("extract"@, pack_lost(p.pod, e)),
        },
        (PodStage::Pack, Reply::Ran { ran: Ok(out), late }) => if out.exit_code == 0 {
            PodStage::Inject
        } else {
            PodStage::RemoveStaging {
                error: failed_in("extract"@, pack_failed(p.pod, out.exit_code, out.stderr)),
            }
        },
        (PodStage::Inject, Reply::Ran { ran: Err(e), late }) => PodStage::RemoveDist {
            error: failed_in("inject"@, inject_lost(p.pod, e)),
        },
        (PodStage::Inject, Reply::Ran { ran: Ok(out), late }) => if out.exit_code == 0 {
            PodStage::Regroup
        } else {
            PodStage::RemoveDist {
                error: failed_in("inject"@, inject_failed(p.pod, out.exit_code, out.stderr)),
            }
        },
        (PodStage::Regroup, Reply::Ran { ran: Err(e), late }) => PodStage::RemoveDist {
            error: failed_in("ownership"@, regroup_lost(p.pod, e)),
        },
        (PodStage::Regroup, Reply::Ran { ran: Ok(out), late }) => if out.exit_code == 0 {
            PodStage::Verify
        } else {
            PodStage::RemoveDist {
                error: failed_in("ownership"@, regroup_failed(p.pod, out.exit_code, out.stderr)),
            }
        },
        (PodStage::Verify, Reply::Ran { ran: Err(e), late }) => PodStage::RemoveDist {
            error: failed_in("verify"@, verify_lost(p.pod, e)),
        },
        (PodStage::Verify, Reply::Ran { ran: Ok(out), late }) => if out.exit_code == 0 {
            PodStage::CleanUp
        } else {
            PodStage::RemoveDist {
                error: failed_in("verify"@, verify_failed(p.pod, out.exit_code, out.stderr)),
            }
        },
        (PodStage::CleanUp, Reply::Ran { ran, late }) => PodStage::Ended {
            result: Ok(ready(false, dist())),
        },
        (PodStage::RemoveDist { error }, Reply::Ran { ran, late }) => PodStage::RemoveStaging {
            error,
        },
        (PodStage::RemoveStaging { error }, Reply::Ran { ran, late }) => pod_failed(error),
        (stage, _) => stage,
    }
}

/// The way into a pod after a reply.
pub open spec fn pod_after(p: PodEnsure<Seq<char>>, reply: Reply<Seq<char>>) -> PodEnsure<
    Seq<char>,
> {
    PodEnsure { stage: pod_next(p, reply), ..p }
}

impl PodEnsure<String> {
    fn container_str(&self) -> (r: Option<&str>)
        ensures
            text::opt_str(r) == text::opt(self.container),
    {
        text::as_str_opt(&self.container)
    }

    fn zip_text(&self) -> (r: String)
        ensures
            r@ == zip_path(text::opt(self.zip)),
    {
        match &self.zip {
            Some(z) => z.clone(),
            None => String::new(),
        }
    }

    fn on_host(cmd: String) -> (r: Action<String>)
        ensures
            r@ == k8s::on_host(cmd@),
    {
        Action::Run { site: Site::Host, cmd, secs: None }
    }

    /// What is asked for.
    pub fn request(&self) -> (r: Action<String>)
        ensures
            r@ == pod_request(self@),
    {
        let pod: &str = self.pod.as_str();
        let staging: &str = self.staging.as_str();
        match &self.stage {
            PodStage::CheckCache => Self::on_host(pod_check_text(pod, self.container_str())),
            PodStage::CheckZip => Action::CheckFile {
                path: self.zip_text(),
                min_bytes: ARTHAS_ZIP_MIN_BYTES,
            },
            PodStage::MakeStaging => Self::on_host(make_staging_text(staging)),
            PodStage::Send => Action::Upload {
                site: Site::Host,
                local: self.zip_text(),
                remote: staging.to_owned().concat("/arthas.zip"),
            },
            PodStage::Pack => Self::on_host(pack_text(staging)),
            PodStage::Inject => Self::on_host(inject_text(pod, self.container_str(), staging)),
            PodStage::Regroup => Self::on_host(regroup_text(pod, self.container_str())),
            PodStage::Verify => Self::on_host(pod_check_text(pod, self.container_str())),
            PodStage::CleanUp => Self::on_host(remove_staging_text(staging)),
            PodStage::RemoveDist { error: _ } => Self::on_host(
                remove_dist_text(pod, self.container_str()),
            ),
            PodStage::RemoveStaging { error: _ } => Self::on_host(remove_staging_text(staging)),
            PodStage::Ended { result: _ } => Action::Finished,
        }
    }

    /// Takes the reply to what was asked for.
    pub fn step(&mut self, reply: Reply<String>)
        ensures
            final(self)@ == pod_after(old(self)@, reply@),
    {
        let pod: &str = self.pod.as_str();
        let next: Option<PodStage<String>> = match (&self.stage, reply) {
            (PodStage::CheckCache, Reply::Ran { ran: Err(e), late: _ }) => Some(
                fail(failed("check_cache", check_lost_text(pod, e.as_str()))),
            ),
            (PodStage::CheckCache, Reply::Ran { ran: Ok(out), late: _ }) => if out.exit_code == 0 {
                Some(PodStage::Ended { result: Ok(ready_result(true, dist_text())) })
            } else {
                match &self.zip {
                    Some(_) => Some(PodStage::CheckZip),
                    None => Some(fail(missing())),
                }
            },
            (PodStage::CheckZip, Reply::Done { done: Err(e), late: _ }) => Some(
                fail(ProvisionError::new("vendored_package_corrupt", "vendored_package", e)),
            ),
            (PodStage::CheckZip, Reply::Done { done: Ok(_), late: _ }) => Some(
                PodStage::MakeStaging,
            ),
            (PodStage::MakeStaging, Reply::Ran { ran: Err(e), late: _ }) => Some(
                fail(failed("staging", mkdir_lost_text(pod, self.staging.as_str(), e.as_str()))),
            ),
            (PodStage::MakeStaging, Reply::Ran { ran: Ok(out), late: _ }) => if out.exit_code
                == 0 {
                Some(PodStage::Send)
            } else {
                Some(
                    fail(
                        failed(
                            "staging",
                            mkdir_failed_text(pod, out.exit_code, out.stderr.as_str()),
                        ),
                    ),
                )
            },
            (PodStage::Send, Reply::Done { done: Err(e), late: _ }) => Some(
                PodStage::RemoveStaging {
                    error: failed(
                        "upload",
                        send_failed_text(pod, self.staging.as_str(), e.as_str()),
                    ),
                },
            ),
            (PodStage::Send, Reply::Done { done: Ok(_), late: _ }) => Some(PodStage::Pack),
            (PodStage::Pack, Reply::Ran { ran: Err(e), late: _ }) => Some(
                PodStage::RemoveStaging { error: failed("extract", pack_lost_text(pod, e.as_str())) },
            ),
            (PodStage::Pack, Reply::Ran { ran: Ok(out), late: _ }) => if out.exit_code == 0 {
                Some(PodStage::Inject)
            } else {
                Some(
                    PodStage::RemoveStaging {
                        error: failed(
                            "extract",
                            pack_failed_text(pod, out.exit_code, out.stderr.as_str()),
                        ),
                    },
                )
            },
            (PodStage::Inject, Reply::Ran { ran: Err(e), late: _ }) => Some(
                PodStage::RemoveDist { error: failed("inject", inject_lost_text(pod, e.as_str())) },
            ),
            (PodStage::Inject, Reply::Ran { ran: Ok(out), late: _ }) => if out.exit_code == 0 {
                Some(PodStage::Regroup)
            } else {
                Some(
                    PodStage::RemoveDist {
                        error: failed(
                            "inject",
                            inject_failed_text(pod, out.exit_code, out.stderr.as_str()),
                        ),
                    },
                )
            },
            (PodStage::Regroup, Reply::Ran { ran: Err(e), late: _ }) => Some(
                PodStage::RemoveDist { error: failed("ownership", regroup_lost_text(pod, e.as_str())) },
            ),
            (PodStage::Regroup, Reply::Ran { ran: Ok(out), late: _ }) => if out.exit_code == 0 {
                Some(PodStage::Verify)
            } else {
                Some(
                    PodStage::RemoveDist {
                        error: failed(
                            "ownership",
                            regroup_failed_text(pod, out.exit_code, out.stderr.as_str()),
                        ),
                    },
                )
            },
            (PodStage::Verify, Reply::Ran { ran: Err(e), late: _ }) => Some(
                PodStage::RemoveDist { error: failed("verify", verify_lost_text(pod, e.as_str())) },
            ),
            (PodStage::Verify, Reply::Ran { ran: Ok(out), late: _ }) => if out.exit_code == 0 {
                Some(PodStage::CleanUp)
            } else {
                Some(
                    PodStage::RemoveDist {
                        error: failed(
                            "verify",
                            verify_failed_text(pod, out.exit_code, out.stderr.as_str()),
                        ),
                    },
                )
            },
            (PodStage::CleanUp, Reply::Ran { ran: _, late: _ }) => Some(
                PodStage::Ended { result: Ok(ready_result(false, dist_text())) },
            ),
            (PodStage::RemoveDist { error }, Reply::Ran { ran: _, late: _ }) => Some(
                PodStage::RemoveStaging { error: error.copy() },
            ),
            (PodStage::RemoveStaging { error }, Reply::Ran { ran: _, late: _ }) => Some(
                fail(error.copy()),
            ),
            _ => None,
        };
        if let Some(stage) = next {
            self.stage = stage;
        }
    }
}

fn fail(error: ProvisionError<String>) -> (r: PodStage<String>)
    ensures
        r@ == pod_failed(error@),
{
    PodStage::Ended { result: Err(error) }
}

/// A package that is in the pod is not brought again: the first command finds it and nothing
/// else is asked for.
pub proof fn law_pod_cached(
    pod: Seq<char>,
    container: Option<Seq<char>>,
    zip: Option<Seq<char>>,
    id: Seq<char>,
    reply: Reply<Seq<char>>,
)
    requires
        reply matches Reply::Ran { ran: Ok(out), late: _ } && out.exit_code == 0,
    ensures
        ({
            let start = pod_start(pod, container, zip, id);
            &&& pod_request(start) == k8s::on_host(pod_check(pod, container))
            &&& pod_request(pod_after(start, reply)) is Finished
            &&& pod_after(start, reply).stage == (PodStage::<Seq<char>>::Ended {
                result: Ok(ready(true, dist())),
            })
        }),
{
}

/// Whether a command that was answered by `reply` could not be run, or ended with an exit code
/// other than zero.
pub open spec fn went_wrong(reply: Reply<Seq<char>>) -> bool {
    reply matches Reply::Ran { ran, late: _ } && k8s::failed_run(ran)
}

/// From the injection on, a command that cannot be run, or that exits with a code other than zero,
/// has the package removed from the container and the staging directory from the host, in this
/// order, before the way ends in an error.
pub proof fn law_pod_failure_cleans(
    p: PodEnsure<Seq<char>>,
    first: Reply<Seq<char>>,
    second: Reply<Seq<char>>,
    third: Reply<Seq<char>>,
)
    requires
        p.stage is Inject || p.stage is Regroup || p.stage is Verify,
        went_wrong(first),
        second is Ran,
        third is Ran,
    ensures
        ({
            let p1 = pod_after(p, first);
            let p2 = pod_after(p1, second);
            let p3 = pod_after(p2, third);
            &&& pod_request(p1) == k8s::on_host(remove_dist(p.pod, p.container))
            &&& pod_request(p2) == k8s::on_host(remove_staging(p.staging))
            &&& p3.stage matches PodStage::Ended { result: Err(_) }
        }),
{
}

/// Before the injection, a transfer or a packing that failed has the staging directory removed
/// before the way ends in an error.
pub proof fn law_pod_early_failure_unstages(
    p: PodEnsure<Seq<char>>,
    first: Reply<Seq<char>>,
    second: Reply<Seq<char>>,
)
    requires
        ({
            ||| (p.stage is Send && (first matches Reply::Done { done: Err(_), late: _ }))
            ||| (p.stage is Pack && went_wrong(first))
        }),
        second is Ran,
    ensures
        ({
            let p1 = pod_after(p, first);
            let p2 = pod_after(p1, second);
            &&& pod_request(p1) == k8s::on_host(remove_staging(p.staging))
            &&& p2.stage matches PodStage::Ended { result: Err(_) }
        }),
{
}

/// The package is reported as newly brought only after a verification that found it.
pub proof fn law_pod_success_is_verified(p: PodEnsure<Seq<char>>, reply: Reply<Seq<char>>)
    requires
        p.stage !is CleanUp,
        pod_next(p, reply) is CleanUp,
    ensures
        p.stage is Verify,
        reply matches Reply::Ran { ran: Ok(out), late } && out.exit_code == 0,
{
}

/// An ended way stays as it is.
pub proof fn law_pod_end_is_final(p: PodEnsure<Seq<char>>, reply: Reply<Seq<char>>)
    requires
        p.stage is Ended,
    ensures
        pod_after(p, reply) == p,
        pod_request(p) is Finished,
{
}

/// The way into a pod after replies.
pub open spec fn pod_run(p: PodEnsure<Seq<char>>, replies: Seq<Reply<Seq<char>>>) -> PodEnsure<
    Seq<char>,
>
    decreases replies.len(),
{
    if replies.len() == 0 {
        p
    } else {
        pod_after(pod_run(p, replies.drop_last()), replies.last())
    }
}

/// What the way into a pod asked for until then, each thing once.
pub open spec fn pod_asked(p: PodEnsure<Seq<char>>, replies: Seq<Reply<Seq<char>>>) -> Seq<
    Action<Seq<char>>,
>
    decreases replies.len(),
{
    if replies.len() == 0 {
        seq![pod_request(p)]
    } else {
        let before = pod_run(p, replies.drop_last());
        let after = pod_run(p, replies);
        let asked = pod_asked(p, replies.drop_last());
        if after.stage == before.stage {
            asked
        } else {
            asked.push(pod_request(after))
        }
    }
}

/// What the way into a pod asks for when the package has to be brought and all goes well.
pub open spec fn pod_path(p: PodEnsure<Seq<char>>) -> Seq<Action<Seq<char>>> {
    seq![
        k8s::on_host(pod_check(p.pod, p.container)),
        Action::CheckFile { path: zip_path(p.zip), min_bytes: ARTHAS_ZIP_MIN_BYTES },
        k8s::on_host(make_staging(p.staging)),
        Action::Upload {
            site: Site::Host,
            local: zip_path(p.zip),
            remote: p.staging + "/arthas.zip"@,
        },
        k8s::on_host(pack(p.staging)),
        k8s::on_host(inject(p.pod, p.container, p.staging)),
        k8s::on_host(regroup(p.pod, p.container)),
        k8s::on_host(pod_check(p.pod, p.container)),
        k8s::on_host(remove_staging(p.staging)),
    ]
}

/// How far along [`pod_path`] a stage is, where it is on it.
pub open spec fn pod_place(stage: PodStage<Seq<char>>) -> Option<int> {
    match stage {
        PodStage::CheckCache => Some(1),
        PodStage::CheckZip => Some(2),
        PodStage::MakeStaging => Some(3),
        PodStage::Send => Some(4),
        PodStage::Pack => Some(5),
        PodStage::Inject => Some(6),
        PodStage::Regroup => Some(7),
        PodStage::Verify => Some(8),
        PodStage::CleanUp => Some(9),
        _ => None,
    }
}

/// The removal of the package from the container.
pub open spec fn pod_removal(p: PodEnsure<Seq<char>>) -> Action<Seq<char>> {
    k8s::on_host(remove_dist(p.pod, p.container))
}

/// The removal of the staging directory from the host.
pub open spec fn staging_removal(p: PodEnsure<Seq<char>>) -> Action<Seq<char>> {
    k8s::on_host(remove_staging(p.staging))
}

/// What was asked for is the beginning of [`pod_path`] up to something that went wrong, then the
/// removal of the package, where something may have arrived in the container, and then the removal
/// of the staging directory, where it has `unstaged`.
pub open spec fn pod_gave_up(
    p: PodEnsure<Seq<char>>,
    asked: Seq<Action<Seq<char>>>,
    unstaged: bool,
) -> bool {
    let path = pod_path(p);
    if unstaged {
        ||| asked == path.take(4).push(staging_removal(p))
        ||| asked == path.take(5).push(staging_removal(p))
        ||| asked == path.take(6).push(pod_removal(p)).push(staging_removal(p))
        ||| asked == path.take(7).push(pod_removal(p)).push(staging_removal(p))
        ||| asked == path.take(8).push(pod_removal(p)).push(staging_removal(p))
    } else {
        ||| asked == path.take(6).push(pod_removal(p))
        ||| asked == path.take(7).push(pod_removal(p))
        ||| asked == path.take(8).push(pod_removal(p))
    }
}

/// What was asked for ended before anything was sent to the host, or with the removals that
/// [`pod_gave_up`] names.
pub open spec fn pod_left_nothing(
    p: PodEnsure<Seq<char>>,
    asked: Seq<Action<Seq<char>>>,
) -> bool {
    ||| asked == pod_path(p).take(1).push(Action::Finished)
    ||| asked == pod_path(p).take(2).push(Action::Finished)
    ||| asked == pod_path(p).take(3).push(Action::Finished)
    ||| asked.len() > 0 && asked.last() is Finished && pod_gave_up(p, asked.drop_last(), true)
}

proof fn lemma_pod_run(p: PodEnsure<Seq<char>>, replies: Seq<Reply<Seq<char>>>)
    requires
        p.stage is CheckCache,
    ensures
        ({
            let end = pod_run(p, replies);
            let asked = pod_asked(p, replies);
            let path = pod_path(p);
            &&& end == (PodEnsure { stage: end.stage, ..p })
            &&& pod_place(end.stage) matches Some(k) ==> asked == path.take(k)
            &&& end.stage matches PodStage::Ended { result: Ok(result) } ==> {
                ||| result == ready(true, dist()) && asked == path.take(1).push(Action::Finished)
                ||| result == ready(false, dist()) && asked == path.push(Action::Finished)
            }
            &&& end.stage is RemoveDist ==> pod_gave_up(p, asked, false)
            &&& end.stage is RemoveStaging ==> pod_gave_up(p, asked, true)
            &&& end.stage matches PodStage::Ended { result: Err(_) } ==> pod_left_nothing(p, asked)
        }),
    decreases replies.len(),
{
    let path = pod_path(p);
    if replies.len() == 0 {
        assert(pod_asked(p, replies) =~= path.take(1));
    } else {
        lemma_pod_run(p, replies.drop_last());
        let before = pod_run(p, replies.drop_last());
        assert(path.take(9) =~= path);
        if let Some(k) = pod_place(before.stage) {
            assert(k < 9 ==> path.take(k + 1) =~= path.take(k).push(path[k]));
        }
        let asked = pod_asked(p, replies.drop_last());
        assert(asked.push(Action::Finished).drop_last() =~= asked);
    }
}

/// Over a whole run: a way that fails ended before anything was sent to the host, or it removed the
/// staging directory as the last thing, after the package in the container where something may
/// have arrived there.
pub proof fn law_failed_pod_leaves_nothing(
    p: PodEnsure<Seq<char>>,
    replies: Seq<Reply<Seq<char>>>,
)
    requires
        p.stage is CheckCache,
        pod_run(p, replies).stage matches PodStage::Ended { result: Err(_) },
    ensures
        pod_left_nothing(p, pod_asked(p, replies)),
{
    lemma_pod_run(p, replies);
}

/// Over a whole run: a package that was there was looked for and nothing else; one that was
/// brought took the nine things that [`pod_path`] names, in that order, and nothing else.
pub proof fn law_pod_in_order(
    p: PodEnsure<Seq<char>>,
    replies: Seq<Reply<Seq<char>>>,
    result: ProvisionResult<Seq<char>>,
)
    requires
        p.stage is CheckCache,
        pod_run(p, replies).stage == (PodStage::<Seq<char>>::Ended { result: Ok(result) }),
    ensures
        ({
            ||| result == ready(true, dist()) && pod_asked(p, replies) == pod_path(p).take(1).push(
                Action::Finished,
            )
            ||| result == ready(false, dist()) && pod_asked(p, replies) == pod_path(p).push(
                Action::Finished,
            )
        }),
{
    lemma_pod_run(p, replies);
}

/// The package in a pod is one and the same for every step that touches it: the directory that a
/// success reports is where the boot program was looked for, where the archive was unpacked, what
/// was given to the group and what is removed after a failure.
pub proof fn law_pod_package_is_where_it_is_reported(
    p: PodEnsure<Seq<char>>,
    replies: Seq<Reply<Seq<char>>>,
    result: ProvisionResult<Seq<char>>,
)
    requires
        p.stage is CheckCache,
        pod_run(p, replies).stage == (PodStage::<Seq<char>>::Ended { result: Ok(result) }),
    ensures
        result.tool == "arthas"@,
        result.bins is Nothing,
        result.tool_home == k8s::POD_TOOLS_DIR@ + "/arthas-dist"@,
        text::starts(pod_check(p.pod, p.container), "kubectl exec "@),
        text::contains(
            pod_check(p.pod, p.container),
            ssh::shell_quote(p.pod) + " -- test -f "@ + ssh::shell_quote(
                result.tool_home + "/arthas-boot.jar"@,
            ),
        ),
        text::starts(inject(p.pod, p.container, p.staging), "kubectl exec -i "@),
        text::contains(
            inject(p.pod, p.container, p.staging),
            ssh::shell_quote(p.pod) + " -- sh -c "@ + ssh::shell_quote(
                "mkdir -p "@ + ssh::shell_quote(result.tool_home) + " && tar xz -C "@
                    + ssh::shell_quote(result.tool_home),
            ),
        ),
        text::starts(regroup(p.pod, p.container), "kubectl exec "@),
        text::contains(
            regroup(p.pod, p.container),
            ssh::shell_quote(p.pod) + " -- sh -c "@ + ssh::shell_quote(
                "chgrp -R "@ + k8s::OSS_GROUP@ + " "@ + ssh::shell_quote(result.tool_home)
                    + " && chmod -R g+rX "@ + ssh::shell_quote(result.tool_home),
            ),
        ),
        text::starts(remove_dist(p.pod, p.container), "kubectl exec "@),
        text::contains(
            remove_dist(p.pod, p.container),
            ssh::shell_quote(p.pod) + " -- rm -rf "@ + ssh::shell_quote(result.tool_home),
        ),
{
    lemma_pod_run(p, replies);
    let flag = k8s::container_flag(p.container);
    let name = ssh::shell_quote(p.pod);
    let c0 = "kubectl exec "@;
    let c1 = flag;
    let c2 = name;
    let c3 = " -- test -f "@;
    let c4 = ssh::shell_quote(dist() + "/arthas-boot.jar"@);
    let p0 = c0;
    let p1 = p0 + c1;
    let p2 = p1 + c2;
    let p3 = p2 + c3;
    let p4 = p3 + c4;
    let t2_5 = c2 + c3 + c4;
    text::lemma_part_of_three(p1, c2, c3, c4);
    text::lemma_start(p0, c1);
    text::lemma_start_kept(p1, p0, c2);
    text::lemma_start_kept(p2, p0, c3);
    text::lemma_start_kept(p3, p0, c4);
    let c0 = "kubectl exec -i "@;
    let c1 = flag;
    let c2 = name;
    let c3 = " -- sh -c "@;
    let c4 = ssh::shell_quote("mkdir -p "@ + ssh::shell_quote(dist()) + " && tar xz -C "@ + ssh::shell_quote(dist()));
    let c5 = " < "@;
    let c6 = ssh::shell_quote(p.staging + "/arthas.tar.gz"@);
    let p0 = c0;
    let p1 = p0 + c1;
    let p2 = p1 + c2;
    let p3 = p2 + c3;
    let p4 = p3 + c4;
    let p5 = p4 + c5;
    let p6 = p5 + c6;
    let t2_5 = c2 + c3 + c4;
    text::lemma_part_of_three(p1, c2, c3, c4);
    text::lemma_part_kept(p4, t2_5, c5);
    text::lemma_part_kept(p5, t2_5, c6);
    text::lemma_start(p0, c1);
    text::lemma_start_kept(p1, p0, c2);
    text::lemma_start_kept(p2, p0, c3);
    text::lemma_start_kept(p3, p0, c4);
    text::lemma_start_kept(p4, p0, c5);
    text::lemma_start_kept(p5, p0, c6);
    let c0 = "kubectl exec "@;
    let c1 = flag;
    let c2 = name;
    let c3 = " -- sh -c "@;
    let c4 = ssh::shell_quote("chgrp -R "@ + k8s::OSS_GROUP@ + " "@ + ssh::shell_quote(dist()) + " && chmod -R g+rX "@ + ssh::shell_quote(dist()));
    let p0 = c0;
    let p1 = p0 + c1;
    let p2 = p1 + c2;
    let p3 = p2 + c3;
    let p4 = p3 + c4;
    let t2_5 = c2 + c3 + c4;
    text::lemma_part_of_three(p1, c2, c3, c4);
    text::lemma_start(p0, c1);
    text::lemma_start_kept(p1, p0, c2);
    text::lemma_start_kept(p2, p0, c3);
    text::lemma_start_kept(p3, p0, c4);
    let c0 = "kubectl exec "@;
    let c1 = flag;
    let c2 = name;
    let c3 = " -- rm -rf "@;
    let c4 = ssh::shell_quote(dist());
    let p0 = c0;
    let p1 = p0 + c1;
    let p2 = p1 + c2;
    let p3 = p2 + c3;
    let p4 = p3 + c4;
    let t2_5 = c2 + c3 + c4;
    text::lemma_part_of_three(p1, c2, c3, c4);
    text::lemma_start(p0, c1);
    text::lemma_start_kept(p1, p0, c2);
    text::lemma_start_kept(p2, p0, c3);
    text::lemma_start_kept(p3, p0, c4);
}

/// The archive goes from this machine into the staging directory and from there into the pod: it is
/// sent to the name that the packing reads, and what the packing writes is what the container gets.
pub proof fn law_pod_archive_goes_on(p: PodEnsure<Seq<char>>)
    ensures
        ({
            let sent = pod_request(PodEnsure { stage: PodStage::Send, ..p });
            let packed = pod_request(PodEnsure { stage: PodStage::Pack, ..p });
            let made = pod_request(PodEnsure { stage: PodStage::MakeStaging, ..p });
            let looked = pod_request(PodEnsure { stage: PodStage::CheckZip, ..p });
            let fed = pod_request(PodEnsure { stage: PodStage::Inject, ..p });
            let removed = pod_request(PodEnsure { stage: PodStage::CleanUp, ..p });
            &&& looked matches Action::CheckFile { path, min_bytes } && (p.zip matches Some(z)
                ==> path == z) && min_bytes == 5242880
            &&& made matches Action::Run { site, cmd, secs } && site is Host && secs is None
                && cmd == "mkdir -p "@ + ssh::shell_quote(p.staging)
            &&& sent matches Action::Upload { site, local, remote } && site is Host && (
            p.zip matches Some(z) ==> local == z) && remote == p.staging + "/arthas.zip"@
            &&& packed matches Action::Run { site, cmd, secs } && site is Host && secs is None
                && text::starts(cmd, "cd "@ + ssh::shell_quote(p.staging)) && text::contains(
                cmd,
                "unzip -oq arthas.zip -d unzipped"@,
            ) && text::contains(cmd, "tar czf arthas.tar.gz -C unzipped ."@)
            &&& fed matches Action::Run { site, cmd, secs } && site is Host && secs is None
                && text::contains(cmd, " < "@ + ssh::shell_quote(p.staging + "/arthas.tar.gz"@))
            &&& removed matches Action::Run { site, cmd, secs } && site is Host && secs is None
                && cmd == "rm -rf "@ + ssh::shell_quote(p.staging)
        }),
{
    let flag = k8s::container_flag(p.container);
    let name = ssh::shell_quote(p.pod);
    let tail = " && unzip -oq arthas.zip -d unzipped && tar czf arthas.tar.gz -C unzipped ."@;
    reveal_strlit(" && unzip -oq arthas.zip -d unzipped && tar czf arthas.tar.gz -C unzipped .");
    reveal_strlit("unzip -oq arthas.zip -d unzipped");
    reveal_strlit("tar czf arthas.tar.gz -C unzipped .");
    assert(tail.subrange(4, 36) =~= "unzip -oq arthas.zip -d unzipped"@);
    assert(tail.subrange(40, 75) =~= "tar czf arthas.tar.gz -C unzipped ."@);
    assert(text::occurs_at(tail, "unzip -oq arthas.zip -d unzipped"@, 4));
    assert(text::occurs_at(tail, "tar czf arthas.tar.gz -C unzipped ."@, 40));
    let head = "cd "@ + ssh::shell_quote(p.staging);
    text::lemma_start(head, tail);
    text::lemma_part(head, tail);
    text::lemma_part_of_part(head + tail, tail, "unzip -oq arthas.zip -d unzipped"@);
    text::lemma_part_of_part(head + tail, tail, "tar czf arthas.tar.gz -C unzipped ."@);
    let c0 = "kubectl exec -i "@;
    let c1 = flag;
    let c2 = name;
    let c3 = " -- sh -c "@;
    let c4 = ssh::shell_quote("mkdir -p "@ + ssh::shell_quote(dist()) + " && tar xz -C "@ + ssh::shell_quote(dist()));
    let c5 = " < "@;
    let c6 = ssh::shell_quote(p.staging + "/arthas.tar.gz"@);
    let p0 = c0;
    let p1 = p0 + c1;
    let p2 = p1 + c2;
    let p3 = p2 + c3;
    let p4 = p3 + c4;
    let p5 = p4 + c5;
    let p6 = p5 + c6;
    let t5_7 = c5 + c6;
    text::lemma_part_of_two(p4, c5, c6);
}

/// The error that a stage of the way into a pod holds, where it holds one.
pub open spec fn pod_error(stage: PodStage<Seq<char>>) -> Option<ProvisionError<Seq<char>>> {
    match stage {
        PodStage::RemoveDist { error } => Some(error),
        PodStage::RemoveStaging { error } => Some(error),
        PodStage::Ended { result: Err(error) } => Some(error),
        _ => None,
    }
}

/// The name that errors give to a stage in which something is done to the host or the pod.
pub open spec fn pod_stage_name(stage: PodStage<Seq<char>>) -> Option<Seq<char>> {
    match stage {
        PodStage::CheckCache => Some("check_cache"@),
        PodStage::MakeStaging => Some("staging"@),
        PodStage::Send => Some("upload"@),
        PodStage::Pack => Some("extract"@),
        PodStage::Inject => Some("inject"@),
        PodStage::Regroup => Some("ownership"@),
        PodStage::Verify => Some("verify"@),
        _ => None,
    }
}

/// A command of the way into a pod that could not be run is an error of its stage, whose message
/// names the pod and says why.
pub proof fn law_pod_lost_command_is_named(p: PodEnsure<Seq<char>>, e: Seq<char>, late: bool)
    requires
        pod_stage_name(p.stage) is Some,
        p.stage !is Send,
    ensures
        pod_error(pod_after(p, Reply::Ran { ran: Err(e), late }).stage) matches Some(error)
            && error.code == "provision_failed"@ && Some(error.stage) == pod_stage_name(p.stage)
            && text::contains(error.message, p.pod) && text::contains(error.message, e),
{
    if p.stage is CheckCache {
        let c0 = "kubectl exec 缓存检查失败（pod "@;
        let c1 = p.pod;
        let c2 = "）: "@;
        let c3 = e;
        let p0 = c0;
        let p1 = p0 + c1;
        let p2 = p1 + c2;
        let p3 = p2 + c3;
        let t1_2 = c1;
        text::lemma_part(p0, c1);
        text::lemma_part_kept(p1, t1_2, c2);
        text::lemma_part_kept(p2, t1_2, c3);
        let t3_4 = c3;
        text::lemma_part(p2, c3);
    }
    if p.stage is MakeStaging {
        let c0 = "宿主机 staging 目录创建失败（pod "@;
        let c1 = p.pod;
        let c2 = "，"@;
        let c3 = p.staging;
        let c4 = "）: "@;
        let c5 = e;
        let p0 = c0;
        let p1 = p0 + c1;
        let p2 = p1 + c2;
        let p3 = p2 + c3;
        let p4 = p3 + c4;
        let p5 = p4 + c5;
        let t1_2 = c1;
        text::lemma_part(p0, c1);
        text::lemma_part_kept(p1, t1_2, c2);
        text::lemma_part_kept(p2, t1_2, c3);
        text::lemma_part_kept(p3, t1_2, c4);
        text::lemma_part_kept(p4, t1_2, c5);
        let t5_6 = c5;
        text::lemma_part(p4, c5);
    }
    if p.stage is Pack {
        let c0 = "宿主机解包/打包失败（pod "@;
        let c1 = p.pod;
        let c2 = "）: "@;
        let c3 = e;
        let p0 = c0;
        let p1 = p0 + c1;
        let p2 = p1 + c2;
        let p3 = p2 + c3;
        let t1_2 = c1;
        text::lemma_part(p0, c1);
        text::lemma_part_kept(p1, t1_2, c2);
        text::lemma_part_kept(p2, t1_2, c3);
        let t3_4 = c3;
        text::lemma_part(p2, c3);
    }
    if p.stage is Inject {
        let c0 = "tar 注入容器执行失败（pod "@;
        let c1 = p.pod;
        let c2 = "）: "@;
        let c3 = e;
        let p0 = c0;
        let p1 = p0 + c1;
        let p2 = p1 + c2;
        let p3 = p2 + c3;
        let t1_2 = c1;
        text::lemma_part(p0, c1);
        text::lemma_part_kept(p1, t1_2, c2);
        text::lemma_part_kept(p2, t1_2, c3);
        let t3_4 = c3;
        text::lemma_part(p2, c3);
    }
    if p.stage is Regroup {
        let c0 = "chgrp "@;
        let c1 = k8s::OSS_GROUP@;
        let c2 = " 执行失败（pod "@;
        let c3 = p.pod;
        let c4 = "）: "@;
        let c5 = e;
        let p0 = c0;
        let p1 = p0 + c1;
        let p2 = p1 + c2;
        let p3 = p2 + c3;
        let p4 = p3 + c4;
        let p5 = p4 + c5;
        let t3_4 = c3;
        text::lemma_part(p2, c3);
        text::lemma_part_kept(p3, t3_4, c4);
        text::lemma_part_kept(p4, t3_4, c5);
        let t5_6 = c5;
        text::lemma_part(p4, c5);
    }
    if p.stage is Verify {
        let c0 = "验证命令执行失败（pod "@;
        let c1 = p.pod;
        let c2 = "）: "@;
        let c3 = e;
        let p0 = c0;
        let p1 = p0 + c1;
        let p2 = p1 + c2;
        let p3 = p2 + c3;
        let t1_2 = c1;
        text::lemma_part(p0, c1);
        text::lemma_part_kept(p1, t1_2, c2);
        text::lemma_part_kept(p2, t1_2, c3);
        let t3_4 = c3;
        text::lemma_part(p2, c3);
    }
}

/// A command of the way into a pod that ended with an exit code other than zero is an error of its
/// stage, whose message names the pod and holds what the command said. A missing package is none.
pub proof fn law_pod_failed_command_is_named(
    p: PodEnsure<Seq<char>>,
    code: i32,
    stdout: Seq<char>,
    stderr: Seq<char>,
    late: bool,
)
    requires
        pod_stage_name(p.stage) is Some,
        p.stage !is Send,
        p.stage !is CheckCache,
        code != 0,
    ensures
        pod_error(
            pod_after(
                p,
                Reply::Ran { ran: Ok(Output { stdout, stderr, exit_code: code }), late },
            ).stage,
        ) matches Some(error) && error.code == "provision_failed"@ && Some(error.stage)
            == pod_stage_name(p.stage) && text::contains(error.message, p.pod) && text::contains(
            error.message,
            stderr,
        ),
{
    if p.stage is MakeStaging {
        let c0 = "宿主机 staging 目录创建失败（pod "@;
        let c1 = p.pod;
        let c2 = "，exit "@;
        let c3 = text::signed_dec(code as int);
        let c4 = "）: "@;
        let c5 = stderr;
        let p0 = c0;
        let p1 = p0 + c1;
        let p2 = p1 + c2;
        let p3 = p2 + c3;
        let p4 = p3 + c4;
        let p5 = p4 + c5;
        let t1_2 = c1;
        text::lemma_part(p0, c1);
        text::lemma_part_kept(p1, t1_2, c2);
        text::lemma_part_kept(p2, t1_2, c3);
        text::lemma_part_kept(p3, t1_2, c4);
        text::lemma_part_kept(p4, t1_2, c5);
        let t5_6 = c5;
        text::lemma_part(p4, c5);
    }
    if p.stage is Pack {
        let c0 = "宿主机解包/打包失败（pod "@;
        let c1 = p.pod;
        let c2 = "，exit "@;
        let c3 = text::signed_dec(code as int);
        let c4 = "）: "@;
        let c5 = stderr;
        let c6 = " —— 宿主机需要 unzip 与 tar（宿主机环境问题，非容器问题）"@;
        let p0 = c0;
        let p1 = p0 + c1;
        let p2 = p1 + c2;
        let p3 = p2 + c3;
        let p4 = p3 + c4;
        let p5 = p4 + c5;
        let p6 = p5 + c6;
        let t1_2 = c1;
        text::lemma_part(p0, c1);
        text::lemma_part_kept(p1, t1_2, c2);
        text::lemma_part_kept(p2, t1_2, c3);
        text::lemma_part_kept(p3, t1_2, c4);
        text::lemma_part_kept(p4, t1_2, c5);
        text::lemma_part_kept(p5, t1_2, c6);
        let t5_6 = c5;
        text::lemma_part(p4, c5);
        text::lemma_part_kept(p5, t5_6, c6);
    }
    if p.stage is Inject {
        let c0 = "tar 注入容器失败（pod "@;
        let c1 = p.pod;
        let c2 = "，exit "@;
        let c3 = text::signed_dec(code as int);
        let c4 = "）: "@;
        let c5 = stderr;
        let p0 = c0;
        let p1 = p0 + c1;
        let p2 = p1 + c2;
        let p3 = p2 + c3;
        let p4 = p3 + c4;
        let p5 = p4 + c5;
        let t1_2 = c1;
        text::lemma_part(p0, c1);
        text::lemma_part_kept(p1, t1_2, c2);
        text::lemma_part_kept(p2, t1_2, c3);
        text::lemma_part_kept(p3, t1_2, c4);
        text::lemma_part_kept(p4, t1_2, c5);
        let t5_6 = c5;
        text::lemma_part(p4, c5);
    }
    if p.stage is Regroup {
        let c0 = "chgrp "@;
        let c1 = k8s::OSS_GROUP@;
        let c2 = " 失败（pod "@;
        let c3 = p.pod;
        let c4 = "，exit "@;
        let c5 = text::signed_dec(code as int);
        let c6 = "）: "@;
        let c7 = stderr;
        let c8 = " —— exec 用户可能不在 "@;
        let c9 = k8s::OSS_GROUP@;
        let c10 = " 组"@;
        let p0 = c0;
        let p1 = p0 + c1;
        let p2 = p1 + c2;
        let p3 = p2 + c3;
        let p4 = p3 + c4;
        let p5 = p4 + c5;
        let p6 = p5 + c6;
        let p7 = p6 + c7;
        let p8 = p7 + c8;
        let p9 = p8 + c9;
        let p10 = p9 + c10;
        let t3_4 = c3;
        text::lemma_part(p2, c3);
        text::lemma_part_kept(p3, t3_4, c4);
        text::lemma_part_kept(p4, t3_4, c5);
        text::lemma_part_kept(p5, t3_4, c6);
        text::lemma_part_kept(p6, t3_4, c7);
        text::lemma_part_kept(p7, t3_4, c8);
        text::lemma_part_kept(p8, t3_4, c9);
        text::lemma_part_kept(p9, t3_4, c10);
        let t7_8 = c7;
        text::lemma_part(p6, c7);
        text::lemma_part_kept(p7, t7_8, c8);
        text::lemma_part_kept(p8, t7_8, c9);
        text::lemma_part_kept(p9, t7_8, c10);
    }
    if p.stage is Verify {
        let c0 = "注入后 arthas-boot.jar 缺失（pod "@;
        let c1 = p.pod;
        let c2 = "，exit "@;
        let c3 = text::signed_dec(code as int);
        let c4 = "）: "@;
        let c5 = stderr;
        let c6 = " —— 检查 vendored arthas zip 包布局"@;
        let p0 = c0;
        let p1 = p0 + c1;
        let p2 = p1 + c2;
        let p3 = p2 + c3;
        let p4 = p3 + c4;
        let p5 = p4 + c5;
        let p6 = p5 + c6;
        let t1_2 = c1;
        text::lemma_part(p0, c1);
        text::lemma_part_kept(p1, t1_2, c2);
        text::lemma_part_kept(p2, t1_2, c3);
        text::lemma_part_kept(p3, t1_2, c4);
        text::lemma_part_kept(p4, t1_2, c5);
        text::lemma_part_kept(p5, t1_2, c6);
        let t5_6 = c5;
        text::lemma_part(p4, c5);
        text::lemma_part_kept(p5, t5_6, c6);
    }
}

/// What else can go wrong on the way into a pod, and what does not count as a failure: a package
/// that is not there is brought where the archive is on this machine, an archive that is not there
/// or not whole is told apart from a failure of the pod, and the removals keep the first error.
pub proof fn law_pod_other_ends(
    p: PodEnsure<Seq<char>>,
    code: i32,
    stdout: Seq<char>,
    stderr: Seq<char>,
    e: Seq<char>,
    ran: Result<Output<Seq<char>>, Seq<char>>,
    late: bool,
)
    requires
        code != 0,
    ensures
        ({
            let absent = pod_after(
                PodEnsure { stage: PodStage::CheckCache, ..p },
                Reply::Ran { ran: Ok(Output { stdout, stderr, exit_code: code }), late },
            );
            let broken = pod_after(
                PodEnsure { stage: PodStage::CheckZip, ..p },
                Reply::Done { done: Err(e), late },
            );
            let unsent = pod_after(
                PodEnsure { stage: PodStage::Send, ..p },
                Reply::Done { done: Err(e), late },
            );
            &&& p.zip is Some ==> pod_request(absent) is CheckFile
            &&& p.zip is None ==> absent.stage is Ended && (pod_error(absent.stage) matches Some(
                error,
            ) && error.code == "vendored_package_missing"@ && error.stage == "vendored_package"@)
            &&& broken.stage is Ended && (pod_error(broken.stage) matches Some(error) && error.code
                == "vendored_package_corrupt"@ && error.stage == "vendored_package"@
                && error.message == e)
            &&& pod_error(unsent.stage) matches Some(error) && error.code == "provision_failed"@
                && error.stage == "upload"@ && text::contains(error.message, p.pod)
                && text::contains(error.message, e)
            &&& pod_error(p.stage) is Some ==> pod_error(
                pod_after(p, Reply::Ran { ran, late }).stage,
            ) == pod_error(p.stage)
        }),
{
    let c0 = "arthas zip SFTP 上传宿主机失败（pod "@;
    let c1 = p.pod;
    let c2 = "，"@;
    let c3 = p.staging;
    let c4 = "/arthas.zip）: "@;
    let c5 = e;
    let p0 = c0;
    let p1 = p0 + c1;
    let p2 = p1 + c2;
    let p3 = p2 + c3;
    let p4 = p3 + c4;
    let p5 = p4 + c5;
    let t1_2 = c1;
    text::lemma_part(p0, c1);
    text::lemma_part_kept(p1, t1_2, c2);
    text::lemma_part_kept(p2, t1_2, c3);
    text::lemma_part_kept(p3, t1_2, c4);
    text::lemma_part_kept(p4, t1_2, c5);
    let t5_6 = c5;
    text::lemma_part(p4, c5);
}

// ---------------------------------------------------------------------------------------------
// To a host
// ---------------------------------------------------------------------------------------------

/// Where the way to a host stands.
#[derive(Debug, PartialEq, Eq)]
pub enum HostStage<S> {
    /// Is the package on the host?
    CheckCache,
    /// Is the archive on this machine whole?
    CheckZip,
    /// Copy the archive.
    Send,
    /// Unpack it.
    Extract,
    /// Start to remove what the unpacking left, then fail.
    Discard { error: ProvisionError<S> },
    /// Is the package on the host now?
    Verify,
    /// It is over.
    Ended { result: Result<ProvisionResult<S>, ProvisionError<S>> },
}

/// The way of the package to a host.
#[derive(Debug, PartialEq, Eq)]
pub struct HostEnsure<S> {
    /// The archive on this machine, where there is one.
    pub zip: Option<S>,
    pub timeouts: StageTimeouts,
    /// Whether the user was told of the stage.
    pub told: bool,
    pub stage: HostStage<S>,
}

impl View for HostStage<String> {
    type V = HostStage<Seq<char>>;

    open spec fn view(&self) -> HostStage<Seq<char>> {
        match *self {
            HostStage::CheckCache => HostStage::CheckCache,
            HostStage::CheckZip => HostStage::CheckZip,
            HostStage::Send => HostStage::Send,
            HostStage::Extract => HostStage::Extract,
            HostStage::Discard { error } => HostStage::Discard { error: error@ },
            HostStage::Verify => HostStage::Verify,
            HostStage::Ended { result } => HostStage::Ended {
                result: package::view_outcome(result),
            },
        }
    }
}

impl View for HostEnsure<String> {
    type V = HostEnsure<Seq<char>>;

    open spec fn view(&self) -> HostEnsure<Seq<char>> {
        HostEnsure {
            zip: text::opt(self.zip),
            timeouts: self.timeouts,
            told: self.told,
            stage: self.stage@,
        }
    }
}

/// The way to a host before its first step.
pub open spec fn host_start(zip: Option<Seq<char>>, timeouts: StageTimeouts) -> HostEnsure<
    Seq<char>,
> {
    HostEnsure { zip, timeouts, told: false, stage: HostStage::CheckCache }
}

/// What the user is told of a stage before its work begins: the name of the stage and a detail.
pub open spec fn host_notice(stage: HostStage<Seq<char>>) -> Option<(Seq<char>, Seq<char>)> {
    match stage {
        HostStage::CheckCache => Some(("check_cache"@, checking())),
        HostStage::Send => Some(("upload"@, uploading())),
        HostStage::Extract => Some(("extract"@, extracting())),
        HostStage::Verify => Some(("verify"@, verifying())),
        _ => None,
    }
}

/// The work of a stage.
pub open spec fn host_work(h: HostEnsure<Seq<char>>) -> Task<Seq<char>> {
    match h.stage {
        HostStage::CheckCache => Task::Run {
            cmd: host_check(),
            secs: h.timeouts.probe,
            stage: "check_cache"@,
        },
        HostStage::CheckZip => Task::CheckFile {
            path: zip_path(h.zip),
            min_bytes: ARTHAS_ZIP_MIN_BYTES,
        },
        HostStage::Send => Task::Upload { local: zip_path(h.zip), remote: host_zip() },
        HostStage::Extract => Task::Run {
            cmd: host_extract(),
            secs: h.timeouts.extract,
            stage: "extract"@,
        },
        HostStage::Discard { error } => Task::Spawn { cmd: host_discard() },
        HostStage::Verify => Task::Run {
            cmd: host_verify(),
            secs: h.timeouts.verify,
            stage: "verify"@,
        },
        HostStage::Ended { result } => Task::Finished,
    }
}

/// What the way to a host asks for where it stands: first that the user be told of the stage,
/// then the work of the stage.
pub open spec fn host_request(h: HostEnsure<Seq<char>>) -> Task<Seq<char>> {
    match host_notice(h.stage) {
        Some((stage, detail)) => if h.told {
            host_work(h)
        } else {
            Task::Progress { tool: ARTHAS_TOOL_NAME@, stage, detail }
        },
        None => host_work(h),
    }
}

/// The stage that the work of a stage leads to.
pub open spec fn host_next(h: HostEnsure<Seq<char>>, answer: Answer<Seq<char>>) -> HostStage<
    Seq<char>,
> {
    match (h.stage, answer) {
        (HostStage::CheckCache, Answer::Ran { ran: Ok(out) }) => if out.exit_code == 0 {
            HostStage::Ended { result: Ok(ready(true, home())) }
        } else if h.zip is Some {
            HostStage::CheckZip
        } else {
            HostStage::Ended { result: Err(missing_error()) }
        },
        (HostStage::CheckCache, Answer::Ran { ran: Err(e) }) => HostStage::Ended { result: Err(e) },
        (HostStage::CheckZip, Answer::Done { done: Ok(_) }) => HostStage::Send,
        (HostStage::CheckZip, Answer::Done { done: Err(e) }) => HostStage::Ended {
            result: Err(corrupt_error(e)),
        },
        (HostStage::Send, Answer::Done { done: Ok(_) }) => HostStage::Extract,
        (HostStage::Send, Answer::Done { done: Err(e) }) => HostStage::Ended {
            result: Err(failed_in("upload"@, e)),
        },
        (HostStage::Extract, Answer::Ran { ran: Ok(out) }) => if out.exit_code == 0 {
            HostStage::Verify
        } else {
            HostStage::Discard {
                error: failed_in("extract"@, unzip_failed(out.exit_code, out.stderr)),
            }
        },
        (HostStage::Extract, Answer::Ran { ran: Err(e) }) => HostStage::Discard { error: e },
        (HostStage::Discard { error }, Answer::Done { done }) => HostStage::Ended {
            result: Err(error),
        },
        (HostStage::Verify, Answer::Ran { ran: Ok(out) }) => if out.exit_code == 0 {
            HostStage::Ended { result: Ok(ready(false, home())) }
        } else {
            HostStage::Ended { result: Err(failed_in("verify"@, boot_missing())) }
        },
        (HostStage::Verify, Answer::Ran { ran: Err(e) }) => HostStage::Ended { result: Err(e) },
        (stage, _) => stage,
    }
}

/// The way to a host after an answer. An answer to the notice is that it was given.
pub open spec fn host_after(h: HostEnsure<Seq<char>>, answer: Answer<Seq<char>>) -> HostEnsure<
    Seq<char>,
> {
    if host_notice(h.stage) is Some && !h.told {
        if answer is Done {
            HostEnsure { told: true, ..h }
        } else {
            h
        }
    } else if host_next(h, answer) == h.stage {
        h
    } else {
        HostEnsure { told: false, stage: host_next(h, answer), ..h }
    }
}

impl HostEnsure<String> {
    fn zip_text(&self) -> (r: String)
        ensures
            r@ == zip_path(text::opt(self.zip)),
    {
        match &self.zip {
            Some(z) => z.clone(),
            None => String::new(),
        }
    }

    fn notice(&self) -> (r: Option<(&'static str, String)>)
        ensures
            (match r {
                Some((s, d)) => Some((s@, d@)),
                None => None,
            }) == host_notice(self.stage@),
    {
        match &self.stage {
            HostStage::CheckCache => Some(("check_cache", checking_text())),
            HostStage::Send => Some(("upload", uploading_text())),
            HostStage::Extract => Some(("extract", extracting_text())),
            HostStage::Verify => Some(("verify", verifying_text())),
            _ => None,
        }
    }

    fn work(&self) -> (r: Task<String>)
        ensures
            r@ == host_work(self@),
    {
        match &self.stage {
            HostStage::CheckCache => Task::Run {
                cmd: host_check_text(),
                secs: self.timeouts.probe,
                stage: "check_cache".to_owned(),
            },
            HostStage::CheckZip => Task::CheckFile {
                path: self.zip_text(),
                min_bytes: ARTHAS_ZIP_MIN_BYTES,
            },
            HostStage::Send => Task::Upload { local: self.zip_text(), remote: host_zip_text() },
            HostStage::Extract => Task::Run {
                cmd: host_extract_text(),
                secs: self.timeouts.extract,
                stage: "extract".to_owned(),
            },
            HostStage::Discard { error: _ } => Task::Spawn { cmd: host_discard_text() },
            HostStage::Verify => Task::Run {
                cmd: host_verify_text(),
                secs: self.timeouts.verify,
                stage: "verify".to_owned(),
            },
            HostStage::Ended { result: _ } => Task::Finished,
        }
    }

    /// What is asked for.
    pub fn request(&self) -> (r: Task<String>)
        ensures
            r@ == host_request(self@),
    {
        match self.notice() {
            Some((stage, detail)) => if self.told {
                self.work()
            } else {
                Task::Progress {
                    tool: ARTHAS_TOOL_NAME.to_owned(),
                    stage: stage.to_owned(),
                    detail,
                }
            },
            None => self.work(),
        }
    }

    /// Takes the answer to what was asked for.
    pub fn step(&mut self, answer: Answer<String>)
        ensures
            final(self)@ == host_after(old(self)@, answer@),
    {
        if self.notice().is_some() && !self.told {
            if let Answer::Done { done: _ } = answer {
                self.told = true;
            }
            return ;
        }
        let next: Option<HostStage<String>> = match (&self.stage, answer) {
            (HostStage::CheckCache, Answer::Ran { ran: Ok(out) }) => if out.exit_code == 0 {
                Some(HostStage::Ended { result: Ok(ready_result(true, arthas_home())) })
            } else {
                match &self.zip {
                    Some(_) => Some(HostStage::CheckZip),
                    None => Some(HostStage::Ended { result: Err(missing()) }),
                }
            },
            (HostStage::CheckCache, Answer::Ran { ran: Err(e) }) => Some(
                HostStage::Ended { result: Err(e) },
            ),
            (HostStage::CheckZip, Answer::Done { done: Ok(_) }) => Some(HostStage::Send),
            (HostStage::CheckZip, Answer::Done { done: Err(e) }) => Some(
                HostStage::Ended {
                    result: Err(
                        ProvisionError::new("vendored_package_corrupt", "vendored_package", e),
                    ),
                },
            ),
            (HostStage::Send, Answer::Done { done: Ok(_) }) => Some(HostStage::Extract),
            (HostStage::Send, Answer::Done { done: Err(e) }) => Some(
                HostStage::Ended { result: Err(failed("upload", e)) },
            ),
            (HostStage::Extract, Answer::Ran { ran: Ok(out) }) => if out.exit_code == 0 {
                Some(HostStage::Verify)
            } else {
                Some(
                    HostStage::Discard {
                        error: failed(
                            "extract",
                            unzip_failed_text(out.exit_code, out.stderr.as_str()),
                        ),
                    },
                )
            },
            (HostStage::Extract, Answer::Ran { ran: Err(e) }) => Some(
                HostStage::Discard { error: e },
            ),
            (HostStage::Discard { error }, Answer::Done { done: _ }) => Some(
                HostStage::Ended { result: Err(error.copy()) },
            ),
            (HostStage::Verify, Answer::Ran { ran: Ok(out) }) => if out.exit_code == 0 {
                Some(HostStage::Ended { result: Ok(ready_result(false, arthas_home())) })
            } else {
                Some(HostStage::Ended { result: Err(failed("verify", boot_missing_text())) })
            },
            (HostStage::Verify, Answer::Ran { ran: Err(e) }) => Some(
                HostStage::Ended { result: Err(e) },
            ),
            _ => None,
        };
        if let Some(stage) = next {
            self.stage = stage;
            self.told = false;
        }
    }
}

/// A package that is on the host is not brought again: after the notice, the first command finds
/// it and nothing else is asked for.
pub proof fn law_host_cached(
    zip: Option<Seq<char>>,
    timeouts: StageTimeouts,
    noted: Answer<Seq<char>>,
    found: Answer<Seq<char>>,
)
    requires
        noted is Done,
        found matches Answer::Ran { ran: Ok(out) } && out.exit_code == 0,
    ensures
        ({
            let start = host_start(zip, timeouts);
            let h1 = host_after(start, noted);
            let h2 = host_after(h1, found);
            &&& host_request(start) is Progress
            &&& host_request(h1) == host_work(start)
            &&& host_request(h2) is Finished
            &&& h2.stage == (HostStage::<Seq<char>>::Ended { result: Ok(ready(true, home())) })
        }),
{
}

/// An unpacking that failed, or could not be run, has its remains removed before the way ends in an error.
pub proof fn law_host_failure_cleans(
    h: HostEnsure<Seq<char>>,
    first: Answer<Seq<char>>,
    second: Answer<Seq<char>>,
)
    requires
        h.stage is Extract,
        h.told,
        first matches Answer::Ran { ran } && (ran matches Ok(out) ==> out.exit_code != 0),
        second is Done,
    ensures
        ({
            let h1 = host_after(h, first);
            let h2 = host_after(h1, second);
            &&& host_request(h1) == (Task::<Seq<char>>::Spawn { cmd: host_discard() })
            &&& h2.stage matches HostStage::Ended { result: Err(_) }
        }),
{
}

/// The package is reported as newly brought only after a verification that found it.
pub proof fn law_host_success_is_verified(h: HostEnsure<Seq<char>>, answer: Answer<Seq<char>>)
    requires
        h.stage !is Ended,
        host_after(h, answer).stage == (HostStage::<Seq<char>>::Ended {
            result: Ok(ready(false, home())),
        }),
    ensures
        h.stage is Verify,
        answer matches Answer::Ran { ran: Ok(out) } && out.exit_code == 0,
{
}

/// An ended way stays as it is.
pub proof fn law_host_end_is_final(h: HostEnsure<Seq<char>>, answer: Answer<Seq<char>>)
    requires
        h.stage is Ended,
    ensures
        host_after(h, answer) == h,
        host_request(h) is Finished,
{
}

/// The package on a host is one and the same for every step that touches it: the directory that a
/// success reports is where the boot program is looked for, before and after; where the unpacked
/// files are moved; and what is removed after a failure.
pub proof fn law_host_package_is_where_it_is_reported(h: HostEnsure<Seq<char>>, out: Output<Seq<char>>)
    requires
        h.stage is CheckCache || h.stage is Verify,
        h.told,
        out.exit_code == 0,
    ensures
        ({
            let end = host_after(h, Answer::Ran { ran: Ok(out) });
            &&& end.stage matches HostStage::Ended { result: Ok(result) } && result.tool
                == "arthas"@ && result.bins is Nothing && (result.cached <==> h.stage is CheckCache)
                && result.tool_home == "/tmp/friday-tools"@ + "/arthas-"@ + ARTHAS_VERSION@ && (
            host_work(h) matches Task::Run { cmd, secs, stage } && text::contains(
                cmd,
                result.tool_home + "/arthas-boot.jar"@,
            )) && (host_work(HostEnsure { stage: HostStage::Extract, ..h }) matches Task::Run {
                cmd,
                secs,
                stage,
            } && text::starts(cmd, "cd "@ + REMOTE_TOOLS_DIR@))
        }),
{
    reveal_strlit("/tmp/friday-tools");
    let jar = boot_jar();
    assert(jar == home() + "/arthas-boot.jar"@);
    let c0 = "mkdir -p "@;
    let c1 = REMOTE_TOOLS_DIR@;
    let c2 = " && test -f "@;
    let c3 = jar;
    let p0 = c0;
    let p1 = p0 + c1;
    let p2 = p1 + c2;
    let p3 = p2 + c3;
    let t3_4 = c3;
    text::lemma_part(p2, c3);
    let c0 = "test -f "@;
    let c1 = jar;
    let p0 = c0;
    let p1 = p0 + c1;
    let t1_2 = c1;
    text::lemma_part(p0, c1);
    let c0 = "cd "@;
    let c1 = REMOTE_TOOLS_DIR@;
    let c2 = " && rm -rf arthas-tmp-"@;
    let c3 = ARTHAS_VERSION@;
    let c4 = " arthas-"@;
    let c5 = ARTHAS_VERSION@;
    let c6 = " && mkdir arthas-tmp-"@;
    let c7 = ARTHAS_VERSION@;
    let c8 = " && if command -v unzip >/dev/null 2>&1; then unzip -q -o arthas-bin-"@;
    let c9 = ARTHAS_VERSION@;
    let c10 = ".zip -d arthas-tmp-"@;
    let c11 = ARTHAS_VERSION@;
    let c12 = "/; elif command -v python3 >/dev/null 2>&1; then python3 -m zipfile -e arthas-bin-"@;
    let c13 = ARTHAS_VERSION@;
    let c14 = ".zip arthas-tmp-"@;
    let c15 = ARTHAS_VERSION@;
    let c16 = "/; else echo 'neither unzip nor python3 available' >&2; exit 3; fi && d=$(dirname \"$(find arthas-tmp-"@;
    let c17 = ARTHAS_VERSION@;
    let c18 = " -name arthas-boot.jar | head -1)\") && [ -n \"$d\" ] && mv \"$d\" arthas-"@;
    let c19 = ARTHAS_VERSION@;
    let c20 = " && rm -rf arthas-tmp-"@;
    let c21 = ARTHAS_VERSION@;
    let c22 = " arthas-bin-"@;
    let c23 = ARTHAS_VERSION@;
    let c24 = ".zip && chmod -R 755 arthas-"@;
    let c25 = ARTHAS_VERSION@;
    let p0 = c0;
    let p1 = p0 + c1;
    let p2 = p1 + c2;
    let p3 = p2 + c3;
    let p4 = p3 + c4;
    let p5 = p4 + c5;
    let p6 = p5 + c6;
    let p7 = p6 + c7;
    let p8 = p7 + c8;
    let p9 = p8 + c9;
    let p10 = p9 + c10;
    let p11 = p10 + c11;
    let p12 = p11 + c12;
    let p13 = p12 + c13;
    let p14 = p13 + c14;
    let p15 = p14 + c15;
    let p16 = p15 + c16;
    let p17 = p16 + c17;
    let p18 = p17 + c18;
    let p19 = p18 + c19;
    let p20 = p19 + c20;
    let p21 = p20 + c21;
    let p22 = p21 + c22;
    let p23 = p22 + c23;
    let p24 = p23 + c24;
    let p25 = p24 + c25;
    text::lemma_start(p1, c2);
    text::lemma_start_kept(p2, p1, c3);
    text::lemma_start_kept(p3, p1, c4);
    text::lemma_start_kept(p4, p1, c5);
    text::lemma_start_kept(p5, p1, c6);
    text::lemma_start_kept(p6, p1, c7);
    text::lemma_start_kept(p7, p1, c8);
    text::lemma_start_kept(p8, p1, c9);
    text::lemma_start_kept(p9, p1, c10);
    text::lemma_start_kept(p10, p1, c11);
    text::lemma_start_kept(p11, p1, c12);
    text::lemma_start_kept(p12, p1, c13);
    text::lemma_start_kept(p13, p1, c14);
    text::lemma_start_kept(p14, p1, c15);
    text::lemma_start_kept(p15, p1, c16);
    text::lemma_start_kept(p16, p1, c17);
    text::lemma_start_kept(p17, p1, c18);
    text::lemma_start_kept(p18, p1, c19);
    text::lemma_start_kept(p19, p1, c20);
    text::lemma_start_kept(p20, p1, c21);
    text::lemma_start_kept(p21, p1, c22);
    text::lemma_start_kept(p22, p1, c23);
    text::lemma_start_kept(p23, p1, c24);
    text::lemma_start_kept(p24, p1, c25);
}

/// The archive that is sent to a host is the one that is unpacked there, by `unzip` or by python;
/// the directory that holds the boot program becomes the package, and can be read by all.
pub proof fn law_host_archive_is_unpacked()
    ensures
        host_zip() == REMOTE_TOOLS_DIR@ + "/arthas-bin-"@ + ARTHAS_VERSION@ + ".zip"@,
        text::starts(host_extract(), "cd "@ + REMOTE_TOOLS_DIR@),
        text::contains(
            host_extract(),
            " && if command -v unzip >/dev/null 2>&1; then unzip -q -o arthas-bin-"@
                + ARTHAS_VERSION@ + ".zip -d arthas-tmp-"@,
        ),
        text::contains(
            host_extract(),
            "/; elif command -v python3 >/dev/null 2>&1; then python3 -m zipfile -e arthas-bin-"@
                + ARTHAS_VERSION@ + ".zip arthas-tmp-"@,
        ),
        text::contains(
            host_extract(),
            " -name arthas-boot.jar | head -1)\") && [ -n \"$d\" ] && mv \"$d\" arthas-"@
                + ARTHAS_VERSION@,
        ),
        text::contains(host_extract(), ".zip && chmod -R 755 arthas-"@ + ARTHAS_VERSION@),
        home() == REMOTE_TOOLS_DIR@ + "/arthas-"@ + ARTHAS_VERSION@,
        text::starts(host_discard(), "rm -rf "@),
        text::contains(host_discard(), REMOTE_TOOLS_DIR@ + "/arthas-"@ + ARTHAS_VERSION@),
        text::contains(host_discard(), REMOTE_TOOLS_DIR@ + "/arthas-tmp-"@ + ARTHAS_VERSION@),
{
    let c0 = "cd "@;
    let c1 = REMOTE_TOOLS_DIR@;
    let c2 = " && rm -rf arthas-tmp-"@;
    let c3 = ARTHAS_VERSION@;
    let c4 = " arthas-"@;
    let c5 = ARTHAS_VERSION@;
    let c6 = " && mkdir arthas-tmp-"@;
    let c7 = ARTHAS_VERSION@;
    let c8 = " && if command -v unzip >/dev/null 2>&1; then unzip -q -o arthas-bin-"@;
    let c9 = ARTHAS_VERSION@;
    let c10 = ".zip -d arthas-tmp-"@;
    let c11 = ARTHAS_VERSION@;
    let c12 = "/; elif command -v python3 >/dev/null 2>&1; then python3 -m zipfile -e arthas-bin-"@;
    let c13 = ARTHAS_VERSION@;
    let c14 = ".zip arthas-tmp-"@;
    let c15 = ARTHAS_VERSION@;
    let c16 = "/; else echo 'neither unzip nor python3 available' >&2; exit 3; fi && d=$(dirname \"$(find arthas-tmp-"@;
    let c17 = ARTHAS_VERSION@;
    let c18 = " -name arthas-boot.jar | head -1)\") && [ -n \"$d\" ] && mv \"$d\" arthas-"@;
    let c19 = ARTHAS_VERSION@;
    let c20 = " && rm -rf arthas-tmp-"@;
    let c21 = ARTHAS_VERSION@;
    let c22 = " arthas-bin-"@;
    let c23 = ARTHAS_VERSION@;
    let c24 = ".zip && chmod -R 755 arthas-"@;
    let c25 = ARTHAS_VERSION@;
    let p0 = c0;
    let p1 = p0 + c1;
    let p2 = p1 + c2;
    let p3 = p2 + c3;
    let p4 = p3 + c4;
    let p5 = p4 + c5;
    let p6 = p5 + c6;
    let p7 = p6 + c7;
    let p8 = p7 + c8;
    let p9 = p8 + c9;
    let p10 = p9 + c10;
    let p11 = p10 + c11;
    let p12 = p11 + c12;
    let p13 = p12 + c13;
    let p14 = p13 + c14;
    let p15 = p14 + c15;
    let p16 = p15 + c16;
    let p17 = p16 + c17;
    let p18 = p17 + c18;
    let p19 = p18 + c19;
    let p20 = p19 + c20;
    let p21 = p20 + c21;
    let p22 = p21 + c22;
    let p23 = p22 + c23;
    let p24 = p23 + c24;
    let p25 = p24 + c25;
    let t8_11 = c8 + c9 + c10;
    text::lemma_part_of_three(p7, c8, c9, c10);
    text::lemma_part_kept(p10, t8_11, c11);
    text::lemma_part_kept(p11, t8_11, c12);
    text::lemma_part_kept(p12, t8_11, c13);
    text::lemma_part_kept(p13, t8_11, c14);
    text::lemma_part_kept(p14, t8_11, c15);
    text::lemma_part_kept(p15, t8_11, c16);
    text::lemma_part_kept(p16, t8_11, c17);
    text::lemma_part_kept(p17, t8_11, c18);
    text::lemma_part_kept(p18, t8_11, c19);
    text::lemma_part_kept(p19, t8_11, c20);
    text::lemma_part_kept(p20, t8_11, c21);
    text::lemma_part_kept(p21, t8_11, c22);
    text::lemma_part_kept(p22, t8_11, c23);
    text::lemma_part_kept(p23, t8_11, c24);
    text::lemma_part_kept(p24, t8_11, c25);
    let t12_15 = c12 + c13 + c14;
    text::lemma_part_of_three(p11, c12, c13, c14);
    text::lemma_part_kept(p14, t12_15, c15);
    text::lemma_part_kept(p15, t12_15, c16);
    text::lemma_part_kept(p16, t12_15, c17);
    text::lemma_part_kept(p17, t12_15, c18);
    text::lemma_part_kept(p18, t12_15, c19);
    text::lemma_part_kept(p19, t12_15, c20);
    text::lemma_part_kept(p20, t12_15, c21);
    text::lemma_part_kept(p21, t12_15, c22);
    text::lemma_part_kept(p22, t12_15, c23);
    text::lemma_part_kept(p23, t12_15, c24);
    text::lemma_part_kept(p24, t12_15, c25);
    let t18_20 = c18 + c19;
    text::lemma_part_of_two(p17, c18, c19);
    text::lemma_part_kept(p19, t18_20, c20);
    text::lemma_part_kept(p20, t18_20, c21);
    text::lemma_part_kept(p21, t18_20, c22);
    text::lemma_part_kept(p22, t18_20, c23);
    text::lemma_part_kept(p23, t18_20, c24);
    text::lemma_part_kept(p24, t18_20, c25);
    let t24_26 = c24 + c25;
    text::lemma_part_of_two(p23, c24, c25);
    text::lemma_start(p1, c2);
    text::lemma_start_kept(p2, p1, c3);
    text::lemma_start_kept(p3, p1, c4);
    text::lemma_start_kept(p4, p1, c5);
    text::lemma_start_kept(p5, p1, c6);
    text::lemma_start_kept(p6, p1, c7);
    text::lemma_start_kept(p7, p1, c8);
    text::lemma_start_kept(p8, p1, c9);
    text::lemma_start_kept(p9, p1, c10);
    text::lemma_start_kept(p10, p1, c11);
    text::lemma_start_kept(p11, p1, c12);
    text::lemma_start_kept(p12, p1, c13);
    text::lemma_start_kept(p13, p1, c14);
    text::lemma_start_kept(p14, p1, c15);
    text::lemma_start_kept(p15, p1, c16);
    text::lemma_start_kept(p16, p1, c17);
    text::lemma_start_kept(p17, p1, c18);
    text::lemma_start_kept(p18, p1, c19);
    text::lemma_start_kept(p19, p1, c20);
    text::lemma_start_kept(p20, p1, c21);
    text::lemma_start_kept(p21, p1, c22);
    text::lemma_start_kept(p22, p1, c23);
    text::lemma_start_kept(p23, p1, c24);
    text::lemma_start_kept(p24, p1, c25);
    let c0 = "rm -rf "@;
    let c1 = REMOTE_TOOLS_DIR@;
    let c2 = "/arthas-tmp-"@;
    let c3 = ARTHAS_VERSION@;
    let c4 = " "@;
    let c5 = REMOTE_TOOLS_DIR@;
    let c6 = "/arthas-"@;
    let c7 = ARTHAS_VERSION@;
    let p0 = c0;
    let p1 = p0 + c1;
    let p2 = p1 + c2;
    let p3 = p2 + c3;
    let p4 = p3 + c4;
    let p5 = p4 + c5;
    let p6 = p5 + c6;
    let p7 = p6 + c7;
    let t1_4 = c1 + c2 + c3;
    text::lemma_part_of_three(p0, c1, c2, c3);
    text::lemma_part_kept(p3, t1_4, c4);
    text::lemma_part_kept(p4, t1_4, c5);
    text::lemma_part_kept(p5, t1_4, c6);
    text::lemma_part_kept(p6, t1_4, c7);
    let t5_8 = c5 + c6 + c7;
    text::lemma_part_of_three(p4, c5, c6, c7);
    text::lemma_start(p0, c1);
    text::lemma_start_kept(p1, p0, c2);
    text::lemma_start_kept(p2, p0, c3);
    text::lemma_start_kept(p3, p0, c4);
    text::lemma_start_kept(p4, p0, c5);
    text::lemma_start_kept(p5, p0, c6);
    text::lemma_start_kept(p6, p0, c7);
}

/// The steps of the way to a host, each told of before it begins: what is asked for there, and for
/// how long a command may run.
pub proof fn law_way_to_a_host(h: HostEnsure<Seq<char>>, z: Seq<char>, code: i32, stdout: Seq<char>, stderr: Seq<char>)
    requires
        h.zip == Some(z),
        h.told,
        code != 0,
    ensures
        ({
            let found = Answer::Ran { ran: Ok(Output { stdout, stderr, exit_code: 0 }) };
            let absent = Answer::Ran { ran: Ok(Output { stdout, stderr, exit_code: code }) };
            let done = Answer::<Seq<char>>::Done { done: Ok(()) };
            let at = |stage: HostStage<Seq<char>>| HostEnsure { stage, ..h };
            let checked = host_after(at(HostStage::CheckCache), absent);
            let whole = host_after(checked, done);
            let sending = host_after(whole, done);
            let sent = host_after(sending, done);
            let unpacking = host_after(sent, done);
            let unpacked = host_after(unpacking, found);
            let verifying = host_after(unpacked, done);
            &&& host_request(at(HostStage::CheckCache)) matches Task::Run { cmd, secs, stage }
                && secs == h.timeouts.probe && stage == "check_cache"@
            &&& host_request(checked) matches Task::CheckFile { path, min_bytes } && path == z
                && min_bytes == 5242880
            &&& host_request(whole) matches Task::Progress { tool, stage, detail } && tool
                == "arthas_open"@ && stage == "upload"@
            &&& host_request(sending) matches Task::Upload { local, remote } && local == z
                && remote == host_zip()
            &&& host_request(sent) matches Task::Progress { tool, stage, detail } && tool
                == "arthas_open"@ && stage == "extract"@
            &&& host_request(unpacking) matches Task::Run { cmd, secs, stage } && cmd
                == host_extract() && secs == h.timeouts.extract && stage == "extract"@
            &&& host_request(unpacked) matches Task::Progress { tool, stage, detail } && tool
                == "arthas_open"@ && stage == "verify"@
            &&& host_request(verifying) matches Task::Run { cmd, secs, stage } && secs
                == h.timeouts.verify && stage == "verify"@
            &&& host_after(verifying, found).stage matches HostStage::Ended { result: Ok(_) }
        }),
{
}

/// How the way to a host fails: without an archive, with a broken one, in the transfer, in the
/// unpacking and in the verification, each told apart; what a command said is in the message, and
/// an error of the outside is passed on as it is.
pub proof fn law_host_failures(
    h: HostEnsure<Seq<char>>,
    code: i32,
    stdout: Seq<char>,
    stderr: Seq<char>,
    e: Seq<char>,
    lost: ProvisionError<Seq<char>>,
)
    requires
        h.told,
        code != 0,
    ensures
        ({
            let at = |stage: HostStage<Seq<char>>| HostEnsure { stage, ..h };
            let bad = Answer::Ran { ran: Ok(Output { stdout, stderr, exit_code: code }) };
            let gone = Answer::Ran { ran: Err(lost) };
            let broken = Answer::<Seq<char>>::Done { done: Err(e) };
            let untold = HostEnsure { stage: HostStage::CheckZip, told: false, ..h };
            &&& h.zip is None ==> (host_after(at(HostStage::CheckCache), bad).stage matches HostStage::Ended {
                result: Err(error),
            } && error.code == "vendored_package_missing"@ && error.stage == "vendored_package"@)
            &&& host_after(untold, broken).stage matches HostStage::Ended { result: Err(error) }
                && error.code == "vendored_package_corrupt"@ && error.stage == "vendored_package"@
                && error.message == e
            &&& host_after(at(HostStage::Send), broken).stage matches HostStage::Ended {
                result: Err(error),
            } && error.code == "provision_failed"@ && error.stage == "upload"@ && error.message == e
            &&& host_after(at(HostStage::Extract), bad).stage matches HostStage::Discard { error }
                && error.code == "provision_failed"@ && error.stage == "extract"@
                && text::contains(error.message, stderr) && text::contains(
                error.message,
                text::signed_dec(code as int),
            )
            &&& host_after(at(HostStage::Verify), bad).stage matches HostStage::Ended {
                result: Err(error),
            } && error.code == "provision_failed"@ && error.stage == "verify"@
            &&& host_after(at(HostStage::CheckCache), gone).stage == (HostStage::<Seq<char>>::Ended {
                result: Err(lost),
            })
            &&& host_after(at(HostStage::Extract), gone).stage == (HostStage::<
                Seq<char>,
            >::Discard { error: lost })
            &&& host_after(at(HostStage::Verify), gone).stage == (HostStage::<Seq<char>>::Ended {
                result: Err(lost),
            })
            &&& host_after(
                HostEnsure { stage: HostStage::Discard { error: lost }, told: false, ..h },
                broken,
            ).stage == (HostStage::<Seq<char>>::Ended { result: Err(lost) })
        }),
{
    let c0 = "unzip failed (exit "@;
    let c1 = text::signed_dec(code as int);
    let c2 = "): "@;
    let c3 = stderr;
    let c4 = " —— 目标机需要 unzip 或 python3 之一"@;
    let p0 = c0;
    let p1 = p0 + c1;
    let p2 = p1 + c2;
    let p3 = p2 + c3;
    let p4 = p3 + c4;
    let t1_2 = c1;
    text::lemma_part(p0, c1);
    text::lemma_part_kept(p1, t1_2, c2);
    text::lemma_part_kept(p2, t1_2, c3);
    text::lemma_part_kept(p3, t1_2, c4);
    let t3_4 = c3;
    text::lemma_part(p2, c3);
    text::lemma_part_kept(p3, t3_4, c4);
}

/// Each stage of the way to a host is told of by its name, with the file that it is about.
pub proof fn law_host_stages_are_told(stage: HostStage<Seq<char>>)
    ensures
        stage is CheckCache ==> (host_notice(stage) matches Some((name, detail)) && name
            == "check_cache"@ && text::contains(detail, boot_jar())),
        stage is Send ==> (host_notice(stage) matches Some((name, detail)) && name == "upload"@
            && text::contains(detail, "arthas-bin-"@ + ARTHAS_VERSION@ + ".zip"@)),
        stage is Extract ==> (host_notice(stage) matches Some((name, detail)) && name == "extract"@
            && text::contains(detail, "arthas-bin-"@ + ARTHAS_VERSION@ + ".zip"@)),
        stage is Verify ==> (host_notice(stage) matches Some((name, detail)) && name == "verify"@
            && text::contains(detail, boot_jar())),
{
    let v = ARTHAS_VERSION@;
    let zip = "arthas-bin-"@ + v + ".zip"@;
    text::lemma_part("checking "@, boot_jar());
    text::lemma_part("verifying "@, boot_jar());
    reveal_strlit("uploading arthas-bin-");
    reveal_strlit("uploading ");
    reveal_strlit("extracting arthas-bin-");
    reveal_strlit("extracting ");
    reveal_strlit("arthas-bin-");
    reveal_strlit(".zip via sftp");
    reveal_strlit(".zip");
    reveal_strlit(" via sftp");
    assert("uploading arthas-bin-"@ =~= "uploading "@ + "arthas-bin-"@);
    assert("extracting arthas-bin-"@ =~= "extracting "@ + "arthas-bin-"@);
    assert(".zip via sftp"@ =~= ".zip"@ + " via sftp"@);
    assert(extracting() =~= "extracting "@ + zip);
    assert(uploading() =~= "uploading "@ + zip + " via sftp"@);
    text::lemma_part("extracting "@, zip);
    text::lemma_part("uploading "@, zip);
    text::lemma_part_kept("uploading "@ + zip, zip, " via sftp"@);
}

} // verus!

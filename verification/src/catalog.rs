//! The built-in software catalog: the default items a fresh
//! configuration starts from, and the shared update commands offered in
//! the ad-hoc command menu. Pure data; every item declares at least one way
//! to check for updates.

use vstd::prelude::*;

use crate::model::{AppConfig, SoftwareItem};

verus! {

fn s(text: &str) -> (r: String)
    ensures
        r@ == text@,
{
    text.to_owned()
}

fn so(text: &str) -> (r: Option<String>)
    ensures
        r matches Some(v) && v@ == text@,
{
    Some(text.to_owned())
}

/// The update commands shared by the whole catalog.
pub fn default_shared_update_commands() -> (r: Vec<String>)
    ensures
        r@.len() == 2,
        r@[0]@ == "brew update"@,
        r@[1]@ == "brew upgrade"@,
{
    let mut cmds: Vec<String> = Vec::new();
    cmds.push(s("brew update"));
    cmds.push(s("brew upgrade"));
    cmds
}

/// The built-in catalog: pairwise distinct identifiers, and every item
/// declares a latest-version command, so each one can be checked.
#[verifier::rlimit(100)]
pub fn default_software_items() -> (r: Vec<SoftwareItem>)
    ensures
        r@.len() == 29,
        forall|i: int| 0 <= i < r@.len() ==> (#[trigger] r@[i]).is_checkable(),
        forall|i: int| 0 <= i < r@.len() ==> (#[trigger] r@[i])@.latest_version_command is Some,
        forall|i: int, j: int| 0 <= i < j < r@.len() ==> r@[i].id@ != r@[j].id@,
{
    let mut items: Vec<SoftwareItem> = Vec::new();
    items.push(SoftwareItem {
        id: s("brew"),
        name: s("Homebrew"),
        kind: s("cli"),
        enabled: true,
        description: s("Check and update Homebrew packages"),
        current_version_command: so("brew --version | head -n 1 | awk '{print $2}'"),
        latest_version_command: so("brew --version | head -n 1 | awk '{print $2}'"),
        update_check_command: so("brew outdated --quiet"),
        update_check_regex: so(".+"),
        update_command: s("brew update && brew upgrade"),
    });
    items.push(SoftwareItem {
        id: s("bun"),
        name: s("Bun"),
        kind: s("cli"),
        enabled: true,
        description: s("Check and update Bun (if managed via brew)"),
        current_version_command: so("if command -v bun >/dev/null 2>&1; then bun --version; else echo ''; fi"),
        latest_version_command: so("if brew info bun --json=v2 >/dev/null 2>&1; then brew info bun --json=v2 | sed -nE 's/.*\"stable\":[[:space:]]*\"([^\"]+)\".*/\\1/p' | head -n 1; elif command -v bun >/dev/null 2>&1; then bun --version; else echo ''; fi"),
        update_check_command: so("if brew list bun >/dev/null 2>&1; then brew outdated --quiet bun; else echo ''; fi"),
        update_check_regex: so(".+"),
        update_command: s("if brew list bun >/dev/null 2>&1; then brew upgrade bun; else echo 'bun is not managed by brew'; fi"),
    });
    items.push(SoftwareItem {
        id: s("gemini-cli"),
        name: s("Google Gemini CLI"),
        kind: s("cli"),
        enabled: true,
        description: s("Auto-check via npm registry; update manually with npm upgrade"),
        current_version_command: so("if command -v gemini >/dev/null 2>&1; then gemini --version | sed -E 's/[^0-9]*([0-9]+\\.[0-9]+\\.[0-9]+).*/\\1/'; else echo ''; fi"),
        latest_version_command: so("npm view @google/gemini-cli version"),
        update_check_command: None,
        update_check_regex: None,
        update_command: s("npm upgrade -g @google/gemini-cli"),
    });
    items.push(SoftwareItem {
        id: s("codex-cli"),
        name: s("Codex CLI"),
        kind: s("cli"),
        enabled: true,
        description: s("Auto-check via Homebrew cask metadata; update manually with brew upgrade --cask"),
        current_version_command: so("codex --version | sed -E 's/[^0-9]*([0-9]+\\.[0-9]+\\.[0-9]+).*/\\1/'"),
        latest_version_command: so("HOMEBREW_NO_AUTO_UPDATE=1 brew info --cask codex --json=v2 | sed -nE 's/.*\"version\":[[:space:]]*\"([^\"]+)\".*/\\1/p' | head -n 1"),
        update_check_command: None,
        update_check_regex: None,
        update_command: s("brew upgrade --cask codex"),
    });
    items.push(SoftwareItem {
        id: s("oh-my-zsh"),
        name: s("Oh My Zsh"),
        kind: s("cli"),
        enabled: true,
        description: s("Auto-check git HEAD; update manually via OMZ upgrade script"),
        current_version_command: so("if [ -d \"${ZSH:-$HOME/.oh-my-zsh}/.git\" ]; then git -C \"${ZSH:-$HOME/.oh-my-zsh}\" rev-parse --short=12 HEAD; else echo ''; fi"),
        latest_version_command: so("if [ -d \"${ZSH:-$HOME/.oh-my-zsh}/.git\" ]; then REMOTE=\"$(git -C \"${ZSH:-$HOME/.oh-my-zsh}\" config --get remote.origin.url 2>/dev/null || echo https://github.com/ohmyzsh/ohmyzsh.git)\"; git ls-remote \"$REMOTE\" HEAD 2>/dev/null | awk '{print substr($1,1,12)}' | head -n 1; else echo ''; fi"),
        update_check_command: None,
        update_check_regex: None,
        update_command: s("if [ -x \"${ZSH:-$HOME/.oh-my-zsh}/tools/upgrade.sh\" ]; then \"${ZSH:-$HOME/.oh-my-zsh}/tools/upgrade.sh\" -v minimal; else echo 'oh-my-zsh not found'; exit 1; fi"),
    });
    items.push(SoftwareItem {
        id: s("go-runtime"),
        name: s("Go"),
        kind: s("runtime"),
        enabled: true,
        description: s("Manual check/update for Go runtime (brew-managed)"),
        current_version_command: so("if command -v go >/dev/null 2>&1; then go version | sed -nE 's/^go version go([^ ]+).*/\\1/p'; else echo ''; fi"),
        latest_version_command: so("if HOMEBREW_NO_AUTO_UPDATE=1 brew info go --json=v2 >/dev/null 2>&1; then HOMEBREW_NO_AUTO_UPDATE=1 brew info go --json=v2 | sed -nE 's/.*\"stable\"[[:space:]]*:[[:space:]]*\"([^\"]+)\".*/\\1/p' | head -n 1; else echo ''; fi"),
        update_check_command: None,
        update_check_regex: None,
        update_command: s("if brew list go >/dev/null 2>&1; then brew upgrade go; else echo 'go is not managed by brew'; exit 1; fi"),
    });
    items.push(SoftwareItem {
        id: s("rust-toolchain"),
        name: s("Rust"),
        kind: s("runtime"),
        enabled: true,
        description: s("Manual check/update for Rust toolchain (rustup)"),
        current_version_command: so("if command -v rustc >/dev/null 2>&1; then rustc --version | sed -nE 's/^rustc ([^ ]+).*/\\1/p'; else echo ''; fi"),
        latest_version_command: so("LATEST=\"$(curl -fsSL https://static.rust-lang.org/dist/channel-rust-stable.toml 2>/dev/null | sed -nE '/^\\[pkg\\.rust\\]/,/^\\[/{s/^version = \"([0-9]+\\.[0-9]+\\.[0-9]+).*/\\1/p}' | head -n 1)\"; if [ -n \"$LATEST\" ]; then echo \"$LATEST\"; elif command -v rustup >/dev/null 2>&1; then OUT=\"$(rustup check 2>/dev/null || true)\"; LATEST=\"$(echo \"$OUT\" | sed -nE 's/.*-> *([0-9][0-9A-Za-z.+-]*).*/\\1/p' | head -n 1)\"; if [ -z \"$LATEST\" ]; then LATEST=\"$(echo \"$OUT\" | sed -nE 's/.*: *([0-9][0-9A-Za-z.+-]*).*/\\1/p' | head -n 1)\"; fi; if [ -n \"$LATEST\" ]; then echo \"$LATEST\"; else rustc --version | sed -nE 's/^rustc ([^ ]+).*/\\1/p'; fi; else rustc --version | sed -nE 's/^rustc ([^ ]+).*/\\1/p'; fi"),
        update_check_command: None,
        update_check_regex: None,
        update_command: s("if command -v rustup >/dev/null 2>&1; then rustup update; else echo 'rustup not found'; exit 1; fi"),
    });
    items.push(SoftwareItem {
        id: s("node-lts-nvm"),
        name: s("Node.js LTS (nvm)"),
        kind: s("runtime"),
        enabled: true,
        description: s("Manual check/update for Node LTS via nvm"),
        current_version_command: so("TERM=\"${TERM:-xterm-256color}\"; NVM_DIR=\"${NVM_DIR:-$HOME/.nvm}\"; if [ -s \"$NVM_DIR/nvm.sh\" ]; then . \"$NVM_DIR/nvm.sh\" >/dev/null 2>&1; CUR=\"$(nvm current 2>/dev/null)\"; if [ -z \"$CUR\" ] || [ \"$CUR\" = \"none\" ]; then echo ''; else echo \"$CUR\" | sed -E 's/^v//'; fi; else echo ''; fi"),
        latest_version_command: so("TERM=\"${TERM:-xterm-256color}\"; NVM_DIR=\"${NVM_DIR:-$HOME/.nvm}\"; if [ -s \"$NVM_DIR/nvm.sh\" ]; then . \"$NVM_DIR/nvm.sh\" >/dev/null 2>&1; nvm ls-remote --lts 2>/dev/null | sed -nE 's/^[[:space:]]*v([0-9]+\\.[0-9]+\\.[0-9]+).*/\\1/p' | tail -n 1; else echo ''; fi"),
        update_check_command: None,
        update_check_regex: None,
        update_command: s("NVM_DIR=\"${NVM_DIR:-$HOME/.nvm}\"; if [ -s \"$NVM_DIR/nvm.sh\" ]; then . \"$NVM_DIR/nvm.sh\"; nvm install --lts && nvm alias default 'lts/*'; else echo 'nvm not found'; exit 1; fi"),
    });
    items.push(SoftwareItem {
        id: s("visual-studio-code"),
        name: s("Visual Studio Code"),
        kind: s("gui"),
        enabled: true,
        description: s("Auto-check app version via local Info.plist and Homebrew cask metadata"),
        current_version_command: so("if [ -d \"/Applications/Visual Studio Code.app\" ]; then defaults read \"/Applications/Visual Studio Code.app/Contents/Info.plist\" CFBundleShortVersionString 2>/dev/null || echo ''; else echo ''; fi"),
        latest_version_command: so("HOMEBREW_NO_AUTO_UPDATE=1 brew info --cask visual-studio-code --json=v2 | sed -nE 's/.*\"version\":[[:space:]]*\"([^\"]+)\".*/\\1/p' | head -n 1"),
        update_check_command: None,
        update_check_regex: None,
        update_command: s("echo 'Visual Studio Code update is managed manually outside PatchPilot'"),
    });
    items.push(SoftwareItem {
        id: s("antigravity"),
        name: s("Antigravity"),
        kind: s("gui"),
        enabled: true,
        description: s("Auto-check app version via local Info.plist and Homebrew cask metadata"),
        current_version_command: so("if [ -d \"/Applications/Antigravity.app\" ]; then defaults read \"/Applications/Antigravity.app/Contents/Info.plist\" CFBundleShortVersionString 2>/dev/null || echo ''; else echo ''; fi"),
        latest_version_command: so("HOMEBREW_NO_AUTO_UPDATE=1 brew info --cask antigravity --json=v2 | sed -nE 's/.*\"version\":[[:space:]]*\"([^\"]+)\".*/\\1/p' | head -n 1 | cut -d, -f1"),
        update_check_command: None,
        update_check_regex: None,
        update_command: s("echo 'Antigravity update is managed manually outside PatchPilot'"),
    });
    items.push(SoftwareItem {
        id: s("lm-studio"),
        name: s("LM Studio"),
        kind: s("gui"),
        enabled: true,
        description: s("Auto-check app version via local Info.plist and official changelog"),
        current_version_command: so("if [ -d \"/Applications/LM Studio.app\" ]; then defaults read \"/Applications/LM Studio.app/Contents/Info.plist\" CFBundleShortVersionString 2>/dev/null | sed -E 's/^([0-9]+\\.[0-9]+\\.[0-9]+).*/\\1/' || echo ''; else echo ''; fi"),
        latest_version_command: so("curl -fsSL https://lmstudio.ai/changelog | tr '\\r' '\\n' | sed -nE 's/.*>v?([0-9]+\\.[0-9]+\\.[0-9]+([+.-][0-9A-Za-z]+)*)<.*/\\1/p' | head -n 1"),
        update_check_command: None,
        update_check_regex: None,
        update_command: s("echo 'LM Studio update is managed manually outside PatchPilot'"),
    });
    items.push(SoftwareItem {
        id: s("google-chrome"),
        name: s("Google Chrome"),
        kind: s("gui"),
        enabled: true,
        description: s("Auto-check app version via local Info.plist and Chrome VersionHistory API"),
        current_version_command: so("if [ -d \"/Applications/Google Chrome.app\" ]; then defaults read \"/Applications/Google Chrome.app/Contents/Info.plist\" CFBundleShortVersionString 2>/dev/null || echo ''; else echo ''; fi"),
        latest_version_command: so("LATEST=\"$(curl -fsSL \"https://versionhistory.googleapis.com/v1/chrome/platforms/mac/channels/stable/versions?page_size=1\" | sed -nE 's/.*\"version\"[[:space:]]*:[[:space:]]*\"([0-9.]+)\".*/\\1/p' | head -n 1)\"; if [ -n \"$LATEST\" ]; then echo \"$LATEST\"; else curl -fsSL \"https://versionhistory.googleapis.com/v1/chrome/platforms/mac_arm64/channels/stable/versions?page_size=1\" | sed -nE 's/.*\"version\"[[:space:]]*:[[:space:]]*\"([0-9.]+)\".*/\\1/p' | head -n 1; fi"),
        update_check_command: None,
        update_check_regex: None,
        update_command: s("echo 'Google Chrome update is managed manually outside PatchPilot'"),
    });
    items.push(SoftwareItem {
        id: s("chatgpt-desktop"),
        name: s("ChatGPT"),
        kind: s("gui"),
        enabled: true,
        description: s("Auto-check app version via local Info.plist and Homebrew cask metadata"),
        current_version_command: so("if [ -d \"/Applications/ChatGPT.app\" ]; then defaults read \"/Applications/ChatGPT.app/Contents/Info.plist\" CFBundleShortVersionString 2>/dev/null || echo ''; else echo ''; fi"),
        latest_version_command: so("HOMEBREW_NO_AUTO_UPDATE=1 brew info --cask chatgpt --json=v2 | sed -nE 's/.*\"version\":[[:space:]]*\"([^\"]+)\".*/\\1/p' | head -n 1 | cut -d, -f1"),
        update_check_command: None,
        update_check_regex: None,
        update_command: s("echo 'ChatGPT update is managed manually outside PatchPilot'"),
    });
    items.push(SoftwareItem {
        id: s("codex-app"),
        name: s("Codex App"),
        kind: s("gui"),
        enabled: true,
        description: s("Auto-check app version via local Info.plist and Codex appcast feed"),
        current_version_command: so("if [ -d \"/Applications/Codex.app\" ]; then defaults read \"/Applications/Codex.app/Contents/Info.plist\" CFBundleShortVersionString 2>/dev/null || echo ''; else echo ''; fi"),
        latest_version_command: so("set -o pipefail; LATEST=\"$(curl -fsSL https://persistent.oaistatic.com/codex-app-prod/appcast.xml 2>/dev/null | tr '\\r' '\\n' | sed -nE 's/.*sparkle:shortVersionString=\"([^\"]+)\".*/\\1/p' | head -n 1)\"; if [ -n \"$LATEST\" ]; then echo \"$LATEST\"; else defaults read '/Applications/Codex.app/Contents/Info.plist' CFBundleShortVersionString 2>/dev/null || echo ''; fi"),
        update_check_command: None,
        update_check_regex: None,
        update_command: s("echo 'Codex App update is managed manually outside PatchPilot'"),
    });
    items.push(SoftwareItem {
        id: s("codexbar"),
        name: s("CodexBar"),
        kind: s("gui"),
        enabled: true,
        description: s("Auto-check app version via local Info.plist and Sparkle appcast"),
        current_version_command: so("if [ -d \"/Applications/CodexBar.app\" ]; then defaults read \"/Applications/CodexBar.app/Contents/Info.plist\" CFBundleShortVersionString 2>/dev/null || echo ''; else echo ''; fi"),
        latest_version_command: so("set -o pipefail; FEED=\"$(defaults read '/Applications/CodexBar.app/Contents/Info.plist' SUFeedURL 2>/dev/null || echo '')\"; LATEST=\"\"; if [ -n \"$FEED\" ]; then LATEST=\"$(curl -fsSL \"$FEED\" 2>/dev/null | tr '\\r\\n' '  ' | sed -nE \"s/.*sparkle:shortVersionString=[\\\"']([^\\\"']+)[\\\"'].*/\\1/p; t; s/.*<sparkle:shortVersionString>([^<]+)<.*/\\1/p\" | head -n 1)\"; fi; if [ -z \"$LATEST\" ]; then LATEST=\"$(git ls-remote --tags --refs https://github.com/steipete/CodexBar.git 2>/dev/null | awk '{print $2}' | sed -E 's#refs/tags/v?##' | grep -E '^[0-9]+\\.[0-9]+\\.[0-9]+([.-][0-9A-Za-z]+)?$' | sort -V | tail -n 1)\"; fi; if [ -n \"$LATEST\" ]; then echo \"$LATEST\"; else echo ''; fi"),
        update_check_command: None,
        update_check_regex: None,
        update_command: s("echo 'CodexBar update is managed manually outside PatchPilot'"),
    });
    items.push(SoftwareItem {
        id: s("portkiller"),
        name: s("PortKiller"),
        kind: s("gui"),
        enabled: true,
        description: s("Auto-check app version via local Info.plist and Sparkle appcast"),
        current_version_command: so("if [ -d \"/Applications/PortKiller.app\" ]; then defaults read \"/Applications/PortKiller.app/Contents/Info.plist\" CFBundleShortVersionString 2>/dev/null || echo ''; else echo ''; fi"),
        latest_version_command: so("set -o pipefail; FEED=\"$(defaults read '/Applications/PortKiller.app/Contents/Info.plist' SUFeedURL 2>/dev/null || echo '')\"; LATEST=\"\"; if [ -n \"$FEED\" ]; then LATEST=\"$(curl -fsSL \"$FEED\" 2>/dev/null | tr '\\r\\n' '  ' | sed -nE \"s/.*sparkle:shortVersionString=[\\\"']([^\\\"']+)[\\\"'].*/\\1/p; t; s/.*<sparkle:shortVersionString>([^<]+)<.*/\\1/p\" | head -n 1)\"; fi; if [ -z \"$LATEST\" ]; then LATEST=\"$(git ls-remote --tags --refs https://github.com/productdevbook/port-killer.git 2>/dev/null | awk '{print $2}' | sed -E 's#refs/tags/v?##' | grep -E '^[0-9]+\\.[0-9]+\\.[0-9]+([.-][0-9A-Za-z]+)?$' | sort -V | tail -n 1)\"; fi; if [ -n \"$LATEST\" ]; then echo \"$LATEST\"; else echo ''; fi"),
        update_check_command: None,
        update_check_regex: None,
        update_command: s("echo 'PortKiller update is managed manually outside PatchPilot'"),
    });
    items.push(SoftwareItem {
        id: s("docker-desktop"),
        name: s("Docker"),
        kind: s("gui"),
        enabled: true,
        description: s("Auto-check app version via local Info.plist and Homebrew cask metadata"),
        current_version_command: so("if [ -d \"/Applications/Docker.app\" ]; then defaults read \"/Applications/Docker.app/Contents/Info.plist\" CFBundleShortVersionString 2>/dev/null || echo ''; else echo ''; fi"),
        latest_version_command: so("HOMEBREW_NO_AUTO_UPDATE=1 brew info --cask docker-desktop --json=v2 | sed -nE 's/.*\"version\":[[:space:]]*\"([^\"]+)\".*/\\1/p' | head -n 1 | cut -d, -f1"),
        update_check_command: None,
        update_check_regex: None,
        update_command: s("echo 'Docker update is managed manually outside PatchPilot'"),
    });
    items.push(SoftwareItem {
        id: s("openclaw"),
        name: s("OpenClaw"),
        kind: s("gui"),
        enabled: true,
        description: s("Auto-check app version via local Info.plist and Homebrew cask metadata"),
        current_version_command: so("if [ -d \"/Applications/OpenClaw.app\" ]; then defaults read \"/Applications/OpenClaw.app/Contents/Info.plist\" CFBundleShortVersionString 2>/dev/null || echo ''; else echo ''; fi"),
        latest_version_command: so("HOMEBREW_NO_AUTO_UPDATE=1 brew info --cask openclaw --json=v2 | sed -nE 's/.*\"version\":[[:space:]]*\"([^\"]+)\".*/\\1/p' | head -n 1 | cut -d, -f1"),
        update_check_command: None,
        update_check_regex: None,
        update_command: s("echo 'OpenClaw update is managed manually outside PatchPilot'"),
    });
    items.push(SoftwareItem {
        id: s("raycast"),
        name: s("Raycast"),
        kind: s("gui"),
        enabled: true,
        description: s("Auto-check app version via local Info.plist and Homebrew cask metadata"),
        current_version_command: so("if [ -d \"/Applications/Raycast.app\" ]; then defaults read \"/Applications/Raycast.app/Contents/Info.plist\" CFBundleShortVersionString 2>/dev/null || echo ''; else echo ''; fi"),
        latest_version_command: so("HOMEBREW_NO_AUTO_UPDATE=1 brew info --cask raycast --json=v2 | sed -nE 's/.*\"version\":[[:space:]]*\"([^\"]+)\".*/\\1/p' | head -n 1 | cut -d, -f1"),
        update_check_command: None,
        update_check_regex: None,
        update_command: s("echo 'Raycast update is managed manually outside PatchPilot'"),
    });
    items.push(SoftwareItem {
        id: s("notion"),
        name: s("Notion"),
        kind: s("gui"),
        enabled: true,
        description: s("Auto-check app version via local Info.plist and Homebrew cask metadata"),
        current_version_command: so("if [ -d \"/Applications/Notion.app\" ]; then defaults read \"/Applications/Notion.app/Contents/Info.plist\" CFBundleShortVersionString 2>/dev/null || echo ''; else echo ''; fi"),
        latest_version_command: so("HOMEBREW_NO_AUTO_UPDATE=1 brew info --cask notion --json=v2 | sed -nE 's/.*\"version\":[[:space:]]*\"([^\"]+)\".*/\\1/p' | head -n 1 | cut -d, -f1"),
        update_check_command: None,
        update_check_regex: None,
        update_command: s("echo 'Notion update is managed manually outside PatchPilot'"),
    });
    items.push(SoftwareItem {
        id: s("bruno"),
        name: s("Bruno"),
        kind: s("gui"),
        enabled: true,
        description: s("Auto-check app version via local Info.plist and Homebrew cask metadata"),
        current_version_command: so("if [ -d \"/Applications/Bruno.app\" ]; then defaults read \"/Applications/Bruno.app/Contents/Info.plist\" CFBundleShortVersionString 2>/dev/null || echo ''; else echo ''; fi"),
        latest_version_command: so("HOMEBREW_NO_AUTO_UPDATE=1 brew info --cask bruno --json=v2 | sed -nE 's/.*\"version\":[[:space:]]*\"([^\"]+)\".*/\\1/p' | head -n 1 | cut -d, -f1"),
        update_check_command: None,
        update_check_regex: None,
        update_command: s("echo 'Bruno update is managed manually outside PatchPilot'"),
    });
    items.push(SoftwareItem {
        id: s("fork"),
        name: s("Fork"),
        kind: s("gui"),
        enabled: true,
        description: s("Auto-check app version via local Info.plist and Homebrew cask metadata"),
        current_version_command: so("if [ -d \"/Applications/Fork.app\" ]; then defaults read \"/Applications/Fork.app/Contents/Info.plist\" CFBundleShortVersionString 2>/dev/null || echo ''; else echo ''; fi"),
        latest_version_command: so("HOMEBREW_NO_AUTO_UPDATE=1 brew info --cask fork --json=v2 | sed -nE 's/.*\"version\":[[:space:]]*\"([^\"]+)\".*/\\1/p' | head -n 1 | cut -d, -f1"),
        update_check_command: None,
        update_check_regex: None,
        update_command: s("echo 'Fork update is managed manually outside PatchPilot'"),
    });
    items.push(SoftwareItem {
        id: s("zed"),
        name: s("Zed"),
        kind: s("gui"),
        enabled: true,
        description: s("Auto-check app version via local Info.plist and Homebrew cask metadata"),
        current_version_command: so("if [ -d \"/Applications/Zed.app\" ]; then defaults read \"/Applications/Zed.app/Contents/Info.plist\" CFBundleShortVersionString 2>/dev/null || echo ''; else echo ''; fi"),
        latest_version_command: so("HOMEBREW_NO_AUTO_UPDATE=1 brew info --cask zed --json=v2 | sed -nE 's/.*\"version\":[[:space:]]*\"([^\"]+)\".*/\\1/p' | head -n 1 | cut -d, -f1"),
        update_check_command: None,
        update_check_regex: None,
        update_command: s("echo 'Zed update is managed manually outside PatchPilot'"),
    });
    items.push(SoftwareItem {
        id: s("typora"),
        name: s("Typora"),
        kind: s("gui"),
        enabled: true,
        description: s("Auto-check app version via local Info.plist and Homebrew cask metadata"),
        current_version_command: so("if [ -d \"/Applications/Typora.app\" ]; then defaults read \"/Applications/Typora.app/Contents/Info.plist\" CFBundleShortVersionString 2>/dev/null || echo ''; else echo ''; fi"),
        latest_version_command: so("HOMEBREW_NO_AUTO_UPDATE=1 brew info --cask typora --json=v2 | sed -nE 's/.*\"version\":[[:space:]]*\"([^\"]+)\".*/\\1/p' | head -n 1 | cut -d, -f1"),
        update_check_command: None,
        update_check_regex: None,
        update_command: s("echo 'Typora update is managed manually outside PatchPilot'"),
    });
    items.push(SoftwareItem {
        id: s("datagrip"),
        name: s("DataGrip"),
        kind: s("gui"),
        enabled: true,
        description: s("Auto-check app version via local Info.plist and Homebrew cask metadata"),
        current_version_command: so("if [ -d \"/Applications/DataGrip.app\" ]; then defaults read \"/Applications/DataGrip.app/Contents/Info.plist\" CFBundleShortVersionString 2>/dev/null || echo ''; else echo ''; fi"),
        latest_version_command: so("HOMEBREW_NO_AUTO_UPDATE=1 brew info --cask datagrip --json=v2 | sed -nE 's/.*\"version\":[[:space:]]*\"([^\"]+)\".*/\\1/p' | head -n 1 | cut -d, -f1"),
        update_check_command: None,
        update_check_regex: None,
        update_command: s("echo 'DataGrip update is managed manually outside PatchPilot'"),
    });
    items.push(SoftwareItem {
        id: s("telegram"),
        name: s("Telegram"),
        kind: s("gui"),
        enabled: true,
        description: s("Auto-check app version via local Info.plist and Homebrew cask metadata"),
        current_version_command: so("if [ -d \"/Applications/Telegram.app\" ]; then defaults read \"/Applications/Telegram.app/Contents/Info.plist\" CFBundleShortVersionString 2>/dev/null || echo ''; else echo ''; fi"),
        latest_version_command: so("HOMEBREW_NO_AUTO_UPDATE=1 brew info --cask telegram --json=v2 | sed -nE 's/.*\"version\":[[:space:]]*\"([^\"]+)\".*/\\1/p' | head -n 1 | cut -d, -f1"),
        update_check_command: None,
        update_check_regex: None,
        update_command: s("echo 'Telegram update is managed manually outside PatchPilot'"),
    });
    items.push(SoftwareItem {
        id: s("ollama"),
        name: s("Ollama"),
        kind: s("gui"),
        enabled: true,
        description: s("Auto-check app version via local Info.plist and Homebrew cask metadata"),
        current_version_command: so("if [ -d \"/Applications/Ollama.app\" ]; then defaults read \"/Applications/Ollama.app/Contents/Info.plist\" CFBundleShortVersionString 2>/dev/null || echo ''; else echo ''; fi"),
        latest_version_command: so("HOMEBREW_NO_AUTO_UPDATE=1 brew info --cask ollama --json=v2 | sed -nE 's/.*\"version\":[[:space:]]*\"([^\"]+)\".*/\\1/p' | head -n 1 | cut -d, -f1"),
        update_check_command: None,
        update_check_regex: None,
        update_command: s("echo 'Ollama update is managed manually outside PatchPilot'"),
    });
    items.push(SoftwareItem {
        id: s("ghostty"),
        name: s("Ghostty"),
        kind: s("gui"),
        enabled: true,
        description: s("Auto-check app version via local Info.plist and GitHub releases"),
        current_version_command: so("if [ -d \"/Applications/Ghostty.app\" ]; then defaults read \"/Applications/Ghostty.app/Contents/Info.plist\" CFBundleShortVersionString 2>/dev/null || echo ''; else echo ''; fi"),
        latest_version_command: so("set -o pipefail; LATEST=\"\"; if brew info --cask ghostty --json=v2 >/dev/null 2>&1; then LATEST=\"$(brew info --cask ghostty --json=v2 | tr '\\r\\n' ' ' | sed -nE 's/.*\"version\"[[:space:]]*:[[:space:]]*\"([^\",]+).*/\\1/p' | head -n 1)\"; fi; if [ -z \"$LATEST\" ]; then LATEST=\"$(git ls-remote --tags --refs https://github.com/ghostty-org/ghostty.git 2>/dev/null | awk '{print $2}' | sed -E 's#refs/tags/v?##' | grep -E '^[0-9]+\\.[0-9]+\\.[0-9]+([.-][0-9A-Za-z]+)?$' | sort -V | tail -n 1)\"; fi; if [ -n \"$LATEST\" ]; then echo \"$LATEST\"; else exit 1; fi"),
        update_check_command: None,
        update_check_regex: None,
        update_command: s("echo 'Ghostty update is managed manually outside PatchPilot'"),
    });
    items.push(SoftwareItem {
        id: s("warp"),
        name: s("Warp"),
        kind: s("gui"),
        enabled: true,
        description: s("Auto-check app version via local Info.plist and Homebrew cask metadata"),
        current_version_command: so("if [ -d \"/Applications/Warp.app\" ]; then defaults read \"/Applications/Warp.app/Contents/Info.plist\" CFBundleShortVersionString 2>/dev/null || echo ''; else echo ''; fi"),
        latest_version_command: so("HOMEBREW_NO_AUTO_UPDATE=1 brew info --cask warp --json=v2 | tr '\\r\\n' ' ' | sed -nE 's/.*\"version\"[[:space:]]*:[[:space:]]*\"([^\",]+).*/\\1/p' | head -n 1"),
        update_check_command: so("set -o pipefail; CURRENT=\"$(if [ -d '/Applications/Warp.app' ]; then defaults read '/Applications/Warp.app/Contents/Info.plist' CFBundleShortVersionString 2>/dev/null || echo ''; else echo ''; fi)\"; LATEST=\"$(HOMEBREW_NO_AUTO_UPDATE=1 brew info --cask warp --json=v2 | tr '\\r\\n' ' ' | sed -nE 's/.*\"version\"[[:space:]]*:[[:space:]]*\"([^\",]+).*/\\1/p' | head -n 1)\"; CN=\"$(echo \"$CURRENT\" | sed -E 's/^([0-9]+(\\.[0-9]+){2,}).*/\\1/')\"; LN=\"$(echo \"$LATEST\" | sed -E 's/^([0-9]+(\\.[0-9]+){2,}).*/\\1/')\"; if [ -z \"$CN\" ] || [ -z \"$LN\" ]; then echo 'false'; exit 0; fi; MAX=\"$(printf '%s\\n%s\\n' \"$CN\" \"$LN\" | sort -V | tail -n 1)\"; if [ \"$MAX\" = \"$LN\" ] && [ \"$CN\" != \"$LN\" ]; then echo 'true'; else echo 'false'; fi"),
        update_check_regex: None,
        update_command: s("echo 'Warp update is managed manually outside PatchPilot'"),
    });
    proof {
            reveal_strlit("brew");
            reveal_strlit("bun");
            reveal_strlit("gemini-cli");
            reveal_strlit("codex-cli");
            reveal_strlit("oh-my-zsh");
            reveal_strlit("go-runtime");
            reveal_strlit("rust-toolchain");
            reveal_strlit("node-lts-nvm");
            reveal_strlit("visual-studio-code");
            reveal_strlit("antigravity");
            reveal_strlit("lm-studio");
            reveal_strlit("google-chrome");
            reveal_strlit("chatgpt-desktop");
            reveal_strlit("codex-app");
            reveal_strlit("codexbar");
            reveal_strlit("portkiller");
            reveal_strlit("docker-desktop");
            reveal_strlit("openclaw");
            reveal_strlit("raycast");
            reveal_strlit("notion");
            reveal_strlit("bruno");
            reveal_strlit("fork");
            reveal_strlit("zed");
            reveal_strlit("typora");
            reveal_strlit("datagrip");
            reveal_strlit("telegram");
            reveal_strlit("ollama");
            reveal_strlit("ghostty");
            reveal_strlit("warp");
            assert("brew"@.len() == 4);
            assert("brew"@[0] == 'b');
            assert("bun"@.len() == 3);
            assert("bun"@[0] == 'b');
            assert("gemini-cli"@.len() == 10);
            assert("gemini-cli"@[0] == 'g');
            assert("gemini-cli"@[1] == 'e');
            assert("codex-cli"@.len() == 9);
            assert("codex-cli"@[0] == 'c');
            assert("codex-cli"@[6] == 'c');
            assert("oh-my-zsh"@.len() == 9);
            assert("oh-my-zsh"@[0] == 'o');
            assert("go-runtime"@.len() == 10);
            assert("go-runtime"@[0] == 'g');
            assert("go-runtime"@[1] == 'o');
            assert("rust-toolchain"@.len() == 14);
            assert("rust-toolchain"@[0] == 'r');
            assert("node-lts-nvm"@.len() == 12);
            assert("node-lts-nvm"@[0] == 'n');
            assert("visual-studio-code"@.len() == 18);
            assert("visual-studio-code"@[0] == 'v');
            assert("antigravity"@.len() == 11);
            assert("antigravity"@[0] == 'a');
            assert("lm-studio"@.len() == 9);
            assert("lm-studio"@[0] == 'l');
            assert("google-chrome"@.len() == 13);
            assert("google-chrome"@[0] == 'g');
            assert("chatgpt-desktop"@.len() == 15);
            assert("chatgpt-desktop"@[0] == 'c');
            assert("codex-app"@.len() == 9);
            assert("codex-app"@[0] == 'c');
            assert("codex-app"@[6] == 'a');
            assert("codexbar"@.len() == 8);
            assert("codexbar"@[0] == 'c');
            assert("portkiller"@.len() == 10);
            assert("portkiller"@[0] == 'p');
            assert("docker-desktop"@.len() == 14);
            assert("docker-desktop"@[0] == 'd');
            assert("openclaw"@.len() == 8);
            assert("openclaw"@[0] == 'o');
            assert("raycast"@.len() == 7);
            assert("raycast"@[0] == 'r');
            assert("notion"@.len() == 6);
            assert("notion"@[0] == 'n');
            assert("bruno"@.len() == 5);
            assert("bruno"@[0] == 'b');
            assert("fork"@.len() == 4);
            assert("fork"@[0] == 'f');
            assert("zed"@.len() == 3);
            assert("zed"@[0] == 'z');
            assert("typora"@.len() == 6);
            assert("typora"@[0] == 't');
            assert("datagrip"@.len() == 8);
            assert("datagrip"@[0] == 'd');
            assert("telegram"@.len() == 8);
            assert("telegram"@[0] == 't');
            assert("ollama"@.len() == 6);
            assert("ollama"@[0] == 'o');
            assert("ghostty"@.len() == 7);
            assert("ghostty"@[0] == 'g');
            assert("warp"@.len() == 4);
            assert("warp"@[0] == 'w');
        assert forall|i: int, j: int|
            0 <= i < j < items@.len() implies items@[i].id@ != items@[j].id@ by {
                assert(items@[0].id@ == "brew"@);
                assert(items@[1].id@ == "bun"@);
                assert(items@[2].id@ == "gemini-cli"@);
                assert(items@[3].id@ == "codex-cli"@);
                assert(items@[4].id@ == "oh-my-zsh"@);
                assert(items@[5].id@ == "go-runtime"@);
                assert(items@[6].id@ == "rust-toolchain"@);
                assert(items@[7].id@ == "node-lts-nvm"@);
                assert(items@[8].id@ == "visual-studio-code"@);
                assert(items@[9].id@ == "antigravity"@);
                assert(items@[10].id@ == "lm-studio"@);
                assert(items@[11].id@ == "google-chrome"@);
                assert(items@[12].id@ == "chatgpt-desktop"@);
                assert(items@[13].id@ == "codex-app"@);
                assert(items@[14].id@ == "codexbar"@);
                assert(items@[15].id@ == "portkiller"@);
                assert(items@[16].id@ == "docker-desktop"@);
                assert(items@[17].id@ == "openclaw"@);
                assert(items@[18].id@ == "raycast"@);
                assert(items@[19].id@ == "notion"@);
                assert(items@[20].id@ == "bruno"@);
                assert(items@[21].id@ == "fork"@);
                assert(items@[22].id@ == "zed"@);
                assert(items@[23].id@ == "typora"@);
                assert(items@[24].id@ == "datagrip"@);
                assert(items@[25].id@ == "telegram"@);
                assert(items@[26].id@ == "ollama"@);
                assert(items@[27].id@ == "ghostty"@);
                assert(items@[28].id@ == "warp"@);
        }
    }
    items
}

/// The configuration a fresh installation starts from: the scheduling
/// defaults and the seven headline catalog items, with pairwise distinct
/// identifiers.
impl Default for AppConfig {
    #[verifier::rlimit(60)]
    fn default() -> (c: AppConfig)
        ensures
            c@.check_interval_minutes == 480,
            c@.command_timeout_seconds == 120,
            c@.theme_mode == "system"@,
            c@.auto_check_enabled,
            c@.shared_update_commands.len() == 2,
            c@.items.len() == 7,
            c@.items[0].id == "brew"@,
            c@.items[1].id == "bun"@,
            c@.items[2].id == "gemini-cli"@,
            c@.items[3].id == "codex-cli"@,
            c@.items[4].id == "oh-my-zsh"@,
            c@.items[5].id == "visual-studio-code"@,
            c@.items[6].id == "antigravity"@,
            forall|i: int, j: int|
                0 <= i < j < c@.items.len() ==> c@.items[i].id != c@.items[j].id,
            forall|i: int| 0 <= i < c.items@.len() ==> (#[trigger] c.items@[i]).is_checkable(),
    {
        let mut items: Vec<SoftwareItem> = Vec::new();
        items.push(SoftwareItem {
            id: s("brew"),
            name: s("Homebrew"),
            kind: s("cli"),
            enabled: true,
            description: s("Check and update Homebrew packages"),
            current_version_command: so("brew --version | head -n 1 | awk '{print $2}'"),
            latest_version_command: None,
            update_check_command: so("brew outdated --quiet"),
            update_check_regex: so(".+"),
            update_command: s("brew update && brew upgrade"),
        });
        items.push(SoftwareItem {
            id: s("bun"),
            name: s("Bun"),
            kind: s("cli"),
            enabled: true,
            description: s("Check and update Bun (if managed via brew)"),
            current_version_command: so("bun --version"),
            latest_version_command: None,
            update_check_command: so("if brew list bun >/dev/null 2>&1; then brew outdated --quiet bun; else echo ''; fi"),
            update_check_regex: so(".+"),
            update_command: s("if brew list bun >/dev/null 2>&1; then brew upgrade bun; else echo 'bun is not managed by brew'; fi"),
        });
        items.push(SoftwareItem {
            id: s("gemini-cli"),
            name: s("Google Gemini CLI"),
            kind: s("cli"),
            enabled: true,
            description: s("Auto-check via npm registry; update manually with npm upgrade"),
            current_version_command: so("if command -v gemini >/dev/null 2>&1; then gemini --version | sed -E 's/[^0-9]*([0-9]+\\.[0-9]+\\.[0-9]+).*/\\1/'; else echo ''; fi"),
            latest_version_command: so("npm view @google/gemini-cli version"),
            update_check_command: None,
            update_check_regex: None,
            update_command: s("npm upgrade -g @google/gemini-cli"),
        });
        items.push(SoftwareItem {
            id: s("codex-cli"),
            name: s("Codex CLI"),
            kind: s("cli"),
            enabled: true,
            description: s("Auto-check via Homebrew cask metadata; update manually with brew upgrade --cask"),
            current_version_command: so("codex --version | sed -E 's/[^0-9]*([0-9]+\\.[0-9]+\\.[0-9]+).*/\\1/'"),
            latest_version_command: so("HOMEBREW_NO_AUTO_UPDATE=1 brew info --cask codex --json=v2 | sed -nE 's/.*\"version\":[[:space:]]*\"([^\"]+)\".*/\\1/p' | head -n 1"),
            update_check_command: None,
            update_check_regex: None,
            update_command: s("brew upgrade --cask codex"),
        });
        items.push(SoftwareItem {
            id: s("oh-my-zsh"),
            name: s("Oh My Zsh"),
            kind: s("cli"),
            enabled: true,
            description: s("Auto-check git HEAD; update manually via OMZ upgrade script"),
            current_version_command: so("if [ -d \"${ZSH:-$HOME/.oh-my-zsh}/.git\" ]; then git -C \"${ZSH:-$HOME/.oh-my-zsh}\" rev-parse --short=12 HEAD; else echo ''; fi"),
            latest_version_command: so("if [ -d \"${ZSH:-$HOME/.oh-my-zsh}/.git\" ]; then REMOTE=\"$(git -C \"${ZSH:-$HOME/.oh-my-zsh}\" config --get remote.origin.url 2>/dev/null || echo https://github.com/ohmyzsh/ohmyzsh.git)\"; git ls-remote \"$REMOTE\" HEAD 2>/dev/null | awk '{print substr($1,1,12)}' | head -n 1; else echo ''; fi"),
            update_check_command: None,
            update_check_regex: None,
            update_command: s("if [ -x \"${ZSH:-$HOME/.oh-my-zsh}/tools/upgrade.sh\" ]; then \"${ZSH:-$HOME/.oh-my-zsh}/tools/upgrade.sh\" -v minimal; else echo 'oh-my-zsh not found'; exit 1; fi"),
        });
        items.push(SoftwareItem {
            id: s("visual-studio-code"),
            name: s("Visual Studio Code"),
            kind: s("gui"),
            enabled: true,
            description: s("Auto-check app version via local Info.plist and Homebrew cask metadata"),
            current_version_command: so("if [ -d \"/Applications/Visual Studio Code.app\" ]; then defaults read \"/Applications/Visual Studio Code.app/Contents/Info.plist\" CFBundleShortVersionString 2>/dev/null || echo ''; else echo ''; fi"),
            latest_version_command: so("HOMEBREW_NO_AUTO_UPDATE=1 brew info --cask visual-studio-code --json=v2 | sed -nE 's/.*\"version\":[[:space:]]*\"([^\"]+)\".*/\\1/p' | head -n 1"),
            update_check_command: None,
            update_check_regex: None,
            update_command: s("echo 'Visual Studio Code update is managed manually outside PatchPilot'"),
        });
        items.push(SoftwareItem {
            id: s("antigravity"),
            name: s("Antigravity"),
            kind: s("gui"),
            enabled: true,
            description: s("Auto-check app version via local Info.plist and Homebrew cask metadata"),
            current_version_command: so("if [ -d \"/Applications/Antigravity.app\" ]; then defaults read \"/Applications/Antigravity.app/Contents/Info.plist\" CFBundleShortVersionString 2>/dev/null || echo ''; else echo ''; fi"),
            latest_version_command: so("HOMEBREW_NO_AUTO_UPDATE=1 brew info --cask antigravity --json=v2 | sed -nE 's/.*\"version\":[[:space:]]*\"([^\"]+)\".*/\\1/p' | head -n 1 | cut -d, -f1"),
            update_check_command: None,
            update_check_regex: None,
            update_command: s("echo 'Antigravity update is managed manually outside PatchPilot'"),
        });
        proof {
            reveal_strlit("brew");
            reveal_strlit("bun");
            reveal_strlit("gemini-cli");
            reveal_strlit("codex-cli");
            reveal_strlit("oh-my-zsh");
            reveal_strlit("visual-studio-code");
            reveal_strlit("antigravity");
                assert("brew"@.len() == 4);
                assert("brew"@[0] == 'b');
                assert("bun"@.len() == 3);
                assert("bun"@[0] == 'b');
                assert("gemini-cli"@.len() == 10);
                assert("gemini-cli"@[0] == 'g');
                assert("codex-cli"@.len() == 9);
                assert("codex-cli"@[0] == 'c');
                assert("oh-my-zsh"@.len() == 9);
                assert("oh-my-zsh"@[0] == 'o');
                assert("visual-studio-code"@.len() == 18);
                assert("visual-studio-code"@[0] == 'v');
                assert("antigravity"@.len() == 11);
                assert("antigravity"@[0] == 'a');
                assert("brew"@ != "bun"@);
                assert("brew"@ != "gemini-cli"@);
                assert("brew"@ != "codex-cli"@);
                assert("brew"@ != "oh-my-zsh"@);
                assert("brew"@ != "visual-studio-code"@);
                assert("brew"@ != "antigravity"@);
                assert("bun"@ != "gemini-cli"@);
                assert("bun"@ != "codex-cli"@);
                assert("bun"@ != "oh-my-zsh"@);
                assert("bun"@ != "visual-studio-code"@);
                assert("bun"@ != "antigravity"@);
                assert("gemini-cli"@ != "codex-cli"@);
                assert("gemini-cli"@ != "oh-my-zsh"@);
                assert("gemini-cli"@ != "visual-studio-code"@);
                assert("gemini-cli"@ != "antigravity"@);
                assert("codex-cli"@ != "oh-my-zsh"@);
                assert("codex-cli"@ != "visual-studio-code"@);
                assert("codex-cli"@ != "antigravity"@);
                assert("oh-my-zsh"@ != "visual-studio-code"@);
                assert("oh-my-zsh"@ != "antigravity"@);
                assert("visual-studio-code"@ != "antigravity"@);
            assert forall|i: int, j: int|
                0 <= i < j < items@.len() implies items@[i].id@ != items@[j].id@ by {
                assert(items@[0].id@ == "brew"@);
                assert(items@[1].id@ == "bun"@);
                assert(items@[2].id@ == "gemini-cli"@);
                assert(items@[3].id@ == "codex-cli"@);
                assert(items@[4].id@ == "oh-my-zsh"@);
                assert(items@[5].id@ == "visual-studio-code"@);
                assert(items@[6].id@ == "antigravity"@);
            }
        }
        AppConfig {
            check_interval_minutes: 480,
            command_timeout_seconds: 120,
            theme_mode: s("system"),
            auto_check_enabled: true,
            shared_update_commands: default_shared_update_commands(),
            items,
        }
    }
}

} // verus!

//! Workflow automation hooks: their kinds, the built-in hooks on offer, and
//! where a repository keeps them.
use vstd::prelude::*;
use crate::text::{chars_are, chars_of, extend_str, join_path, path_join, string_from_chars};

verus! {

/// Type of hook.
#[derive(Debug, Clone, Copy, PartialEq, Eq, Structural)]
pub enum HookType {
    PreCommit,
    PostCommit,
}

/// The directory name of a hook type.
pub open spec fn hook_dir_name(t: HookType) -> Seq<char> {
    match t {
        HookType::PreCommit => "pre-commit"@,
        HookType::PostCommit => "post-commit"@,
    }
}

impl HookType {
    /// The directory name for this hook type.
    pub fn dir_name(&self) -> (r: &'static str)
        ensures
            r@ == hook_dir_name(*self),
    {
        match self {
            HookType::PreCommit => "pre-commit",
            HookType::PostCommit => "post-commit",
        }
    }
}

/// Built-in hook that can be enabled or disabled.
#[derive(Debug, Clone)]
pub struct BuiltInHook {
    /// Hook name.
    pub name: String,
    /// Hook description.
    pub description: String,
    /// Whether the hook is enabled.
    pub enabled: bool,
    /// Hook type (pre or post commit).
    pub hook_type: HookType,
}

/// Hook manager of a repository.
pub struct HookManager {
    /// Path to the repository.
    pub repo_path: String,
}

/// The hooks directory of a repository: `<repo>/.oxen/hooks`.
pub open spec fn hooks_dir_spec(repo: Seq<char>) -> Seq<char> {
    path_join(path_join(repo, ".oxen"@), "hooks"@)
}

impl HookManager {
    /// A hook manager for the repository at `repo_path`.
    pub fn new(repo_path: &str) -> (m: Self)
        ensures
            m.repo_path@ == repo_path@,
    {
        HookManager { repo_path: repo_path.to_owned() }
    }

    /// The hooks directory: `<repo>/.oxen/hooks`.
    pub fn hooks_dir(&self) -> (p: String)
        ensures
            p@ == hooks_dir_spec(self.repo_path@),
    {
        let oxen = join_path(self.repo_path.as_str(), ".oxen");
        join_path(oxen.as_str(), "hooks")
    }

    /// The directory of one hook type: `<repo>/.oxen/hooks/<type>`.
    pub fn hook_type_dir(&self, hook_type: HookType) -> (p: String)
        ensures
            p@ == path_join(hooks_dir_spec(self.repo_path@), hook_dir_name(hook_type)),
    {
        let dir = self.hooks_dir();
        join_path(dir.as_str(), hook_type.dir_name())
    }

    /// The built-in hooks, all disabled: `validate-metadata` and
    /// `check-file-sizes` before commits, `notify` and `backup` after.
    pub fn list_builtins() -> (hooks: Vec<BuiltInHook>)
        ensures
            hooks@.len() == 4,
            hooks@[0].name@ == "validate-metadata"@,
            hooks@[0].description@ == "Ensure BPM and sample rate are set before commit"@,
            hooks@[0].hook_type == HookType::PreCommit,
            hooks@[1].name@ == "check-file-sizes"@,
            hooks@[1].description@ == "Warn about files larger than 100MB"@,
            hooks@[1].hook_type == HookType::PreCommit,
            hooks@[2].name@ == "notify"@,
            hooks@[2].description@ == "Send notification after commit (customize script)"@,
            hooks@[2].hook_type == HookType::PostCommit,
            hooks@[3].name@ == "backup"@,
            hooks@[3].description@ == "Create timestamped backup after commit"@,
            hooks@[3].hook_type == HookType::PostCommit,
            forall|i: int| 0 <= i < 4 ==> !(#[trigger] hooks@[i]).enabled,
    {
        let mut hooks: Vec<BuiltInHook> = Vec::new();
        hooks.push(BuiltInHook {
            name: "validate-metadata".to_owned(),
            description: "Ensure BPM and sample rate are set before commit".to_owned(),
            enabled: false,
            hook_type: HookType::PreCommit,
        });
        hooks.push(BuiltInHook {
            name: "check-file-sizes".to_owned(),
            description: "Warn about files larger than 100MB".to_owned(),
            enabled: false,
            hook_type: HookType::PreCommit,
        });
        hooks.push(BuiltInHook {
            name: "notify".to_owned(),
            description: "Send notification after commit (customize script)".to_owned(),
            enabled: false,
            hook_type: HookType::PostCommit,
        });
        hooks.push(BuiltInHook {
            name: "backup".to_owned(),
            description: "Create timestamped backup after commit".to_owned(),
            enabled: false,
            hook_type: HookType::PostCommit,
        });
        hooks
    }
}

} // verus!

verus! {

/// The README written into a new hooks directory.
pub const HOOKS_README: &'static str = r#"# Auxin Hooks

This directory contains workflow automation hooks for your Auxin repository.

## Hook Types

### Pre-Commit Hooks (`pre-commit/`)
Run before creating a commit. Can abort the commit if validation fails.

### Post-Commit Hooks (`post-commit/`)
Run after a successful commit. Cannot abort the commit.

## Creating Custom Hooks

1. Create a script in the appropriate directory
2. Make it executable (`chmod +x hook-name`)
3. Use any scripting language (bash, python, ruby, etc.)

### Available Environment Variables

- `AUXIN_MESSAGE` - Commit message
- `AUXIN_BPM` - BPM value (if set)
- `AUXIN_SAMPLE_RATE` - Sample rate (if set)
- `AUXIN_KEY` - Key signature (if set)
- `AUXIN_TAGS` - Comma-separated tags
- `AUXIN_REPO_PATH` - Path to the repository

See the documentation for examples and more information.
"#;

/// Script of the `validate-metadata` pre-commit hook.
pub const HOOK_VALIDATE_METADATA: &'static str = r#"#!/bin/bash
# Pre-commit hook: Validate metadata

if [ -z "$AUXIN_BPM" ]; then
    echo "ERROR: BPM not set. Please provide BPM metadata."
    exit 1
fi

if [ -z "$AUXIN_SAMPLE_RATE" ]; then
    echo "ERROR: Sample rate not set. Please provide sample rate metadata."
    exit 1
fi

echo "✓ Metadata validation passed"
exit 0
"#;

/// Script of the `check-file-sizes` pre-commit hook.
pub const HOOK_CHECK_FILE_SIZES: &'static str = r#"#!/bin/bash
# Pre-commit hook: Check file sizes

MAX_SIZE=$((100 * 1024 * 1024))  # 100MB in bytes

cd "$AUXIN_REPO_PATH" || exit 1

# Find large files
large_files=$(find . -type f -size +${MAX_SIZE}c -not -path "./.oxen/*" 2>/dev/null)

if [ -n "$large_files" ]; then
    echo "WARNING: Large files detected (>100MB):"
    echo "$large_files"
    echo ""
    echo "Consider using .oxenignore for generated/temporary files"
fi

exit 0  # Don't abort commit, just warn
"#;

/// Script of the `notify` post-commit hook.
pub const HOOK_NOTIFY: &'static str = r#"#!/bin/bash
# Post-commit hook: Send notification

# Customize this script to send notifications via your preferred method
# Examples:
# - Send email
# - Post to Slack
# - Send to Discord webhook
# - Update project management system

echo "New commit: $AUXIN_MESSAGE"
echo "BPM: $AUXIN_BPM, Sample Rate: $AUXIN_SAMPLE_RATE, Key: $AUXIN_KEY"

# Example: macOS notification
if command -v osascript &> /dev/null; then
    osascript -e "display notification \"$AUXIN_MESSAGE\" with title \"Auxin Commit\""
fi

# Example: Linux notification
if command -v notify-send &> /dev/null; then
    notify-send "Auxin Commit" "$AUXIN_MESSAGE"
fi

exit 0
"#;

/// Script of the `backup` post-commit hook.
pub const HOOK_BACKUP: &'static str = r#"#!/bin/bash
# Post-commit hook: Create backup

BACKUP_DIR="$HOME/.auxin-backups"
TIMESTAMP=$(date +%Y%m%d_%H%M%S)
PROJECT_NAME=$(basename "$AUXIN_REPO_PATH")

mkdir -p "$BACKUP_DIR"

# Create timestamped backup
BACKUP_PATH="$BACKUP_DIR/${PROJECT_NAME}_${TIMESTAMP}.tar.gz"

echo "Creating backup: $BACKUP_PATH"
tar -czf "$BACKUP_PATH" -C "$(dirname "$AUXIN_REPO_PATH")" "$(basename "$AUXIN_REPO_PATH")" 2>/dev/null

if [ $? -eq 0 ]; then
    echo "✓ Backup created successfully"
else
    echo "WARNING: Backup failed"
fi

# Keep only last 10 backups
cd "$BACKUP_DIR" || exit 0
ls -t ${PROJECT_NAME}_*.tar.gz | tail -n +11 | xargs -r rm

exit 0
"#;

/// The script of a built-in hook of this type and name.
pub open spec fn builtin_script_spec(hook_type: HookType, name: Seq<char>) -> Option<Seq<char>> {
    match hook_type {
        HookType::PreCommit => if name == "validate-metadata"@ {
            Some(HOOK_VALIDATE_METADATA@)
        } else if name == "check-file-sizes"@ {
            Some(HOOK_CHECK_FILE_SIZES@)
        } else {
            None
        },
        HookType::PostCommit => if name == "notify"@ {
            Some(HOOK_NOTIFY@)
        } else if name == "backup"@ {
            Some(HOOK_BACKUP@)
        } else {
            None
        },
    }
}

/// Whether a file in a hook directory is a hook: not hidden, not the README.
pub open spec fn is_hook_name(name: Seq<char>) -> bool {
    !(name.len() > 0 && name[0] == '.') && name != "README.md"@
}

impl HookManager {
    /// The script to install for a built-in hook, or the error for an
    /// unknown one.
    pub fn builtin_script(name: &str, hook_type: HookType) -> (r: Result<&'static str, String>)
        ensures
            match builtin_script_spec(hook_type, name@) {
                Some(s) => r matches Ok(t) && t@ == s,
                None => r matches Err(e) && e@ == "Unknown built-in hook: "@ + name@,
            },
    {
        let n = chars_of(name);
        match hook_type {
            HookType::PreCommit => {
                if chars_are(&n, "validate-metadata") {
                    return Ok(HOOK_VALIDATE_METADATA);
                } else if chars_are(&n, "check-file-sizes") {
                    return Ok(HOOK_CHECK_FILE_SIZES);
                }
            },
            HookType::PostCommit => {
                if chars_are(&n, "notify") {
                    return Ok(HOOK_NOTIFY);
                } else if chars_are(&n, "backup") {
                    return Ok(HOOK_BACKUP);
                }
            },
        }
        let mut v: Vec<char> = Vec::new();
        extend_str(&mut v, "Unknown built-in hook: ");
        extend_str(&mut v, name);
        Err(string_from_chars(&v))
    }

    /// The path of a hook: `<repo>/.oxen/hooks/<type>/<name>`.
    pub fn hook_path(&self, name: &str, hook_type: HookType) -> (p: String)
        ensures
            p@ == path_join(path_join(hooks_dir_spec(self.repo_path@), hook_dir_name(hook_type)), name@),
    {
        let dir = self.hook_type_dir(hook_type);
        join_path(dir.as_str(), name)
    }

    /// The path of the hooks README: `<repo>/.oxen/hooks/README.md`.
    pub fn readme_path(&self) -> (p: String)
        ensures
            p@ == path_join(hooks_dir_spec(self.repo_path@), "README.md"@),
    {
        let dir = self.hooks_dir();
        join_path(dir.as_str(), "README.md")
    }

    /// Whether a file in a hook directory is a hook.
    pub fn is_hook_file(name: &str) -> (r: bool)
        ensures
            r == is_hook_name(name@),
    {
        let n = chars_of(name);
        !(n.len() > 0 && n[0] == '.') && !chars_are(&n, "README.md")
    }

    /// Whether running the hooks goes on after a hook ran: a failed
    /// pre-commit hook stops the commit; a failed post-commit hook only
    /// warns.
    pub fn continues_after(hook_type: HookType, success: bool) -> (r: bool)
        ensures
            r == (success || hook_type == HookType::PostCommit),
    {
        success || hook_type == HookType::PostCommit
    }

    /// The error for removing a hook that is not there.
    pub fn missing_hook_error(name: &str) -> (e: String)
        ensures
            e@ == "Hook not found: "@ + name@,
    {
        let mut v: Vec<char> = Vec::new();
        extend_str(&mut v, "Hook not found: ");
        extend_str(&mut v, name);
        string_from_chars(&v)
    }
}

} // verus!

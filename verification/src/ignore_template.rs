//! Templates of `.oxenignore` files for the supported project kinds.
use vstd::prelude::*;

verus! {

/// The `.oxenignore` template for Logic Pro projects: a header, then the
/// sections "Volatile/Generated Files", "System Files", "Cache and Temporary
/// Files", and an empty "Custom Ignore Patterns" section.
pub open spec fn logic_oxenignore() -> Seq<char> {
    "# Oxen VCS - Logic Pro Ignore Rules\n"@
        + "# Auto-generated ignore file for Logic Pro folder projects\n\n"@
        + "# ===================================\n"@
        + "# Volatile/Generated Files\n"@
        + "# ===================================\n"@
        + "# These files are regenerated and should not be versioned\n\n"@
        + "Bounces/\n"@
        + "Freeze Files/\n"@
        + "*.nosync\n"@
        + "Autosave/\n"@
        + "Media.localized/\n\n"@
        + "# ===================================\n"@
        + "# System Files\n"@
        + "# ===================================\n"@
        + "# OS-specific metadata\n\n"@
        + ".DS_Store\n"@
        + "*.smbdelete*\n"@
        + ".TemporaryItems\n"@
        + ".Trashes\n"@
        + ".fseventsd\n\n"@
        + "# ===================================\n"@
        + "# Cache and Temporary Files\n"@
        + "# ===================================\n\n"@
        + "*.cache\n"@
        + "*.tmp\n"@
        + "*~\n\n"@
        + "# ===================================\n"@
        + "# Custom Ignore Patterns\n"@
        + "# ===================================\n"@
        + "# Add your custom patterns below\n\n"@
}

/// The `.oxenignore` template for SketchUp projects: a header, then the
/// sections "Backup and Temporary Files", "Generated Output", "Cache and
/// Thumbnails", "System Files", and an empty "Custom Ignore Patterns" section.
pub open spec fn sketchup_oxenignore() -> Seq<char> {
    "# Oxen VCS - SketchUp Ignore Rules\n"@
        + "# Auto-generated ignore file for SketchUp projects\n\n"@
        + "# ===================================\n"@
        + "# Backup and Temporary Files\n"@
        + "# ===================================\n"@
        + "# SketchUp automatically creates backup files that should not be versioned\n\n"@
        + "*.skb\n"@
        + "*~.skp\n"@
        + "*.tmp\n"@
        + "*.cache\n"@
        + "*.swp\n"@
        + ".sketchup_session\n\n"@
        + "# ===================================\n"@
        + "# Generated Output\n"@
        + "# ===================================\n"@
        + "# Exported and rendered files that can be regenerated\n\n"@
        + "exports/\n"@
        + "renders/\n"@
        + "output/\n\n"@
        + "# ===================================\n"@
        + "# Cache and Thumbnails\n"@
        + "# ===================================\n"@
        + "# Generated preview and cache files\n\n"@
        + ".thumbnails/\n"@
        + "cache/\n\n"@
        + "# ===================================\n"@
        + "# System Files\n"@
        + "# ===================================\n"@
        + "# OS-specific metadata\n\n"@
        + ".DS_Store\n"@
        + "Thumbs.db\n"@
        + "desktop.ini\n"@
        + "*.smbdelete*\n\n"@
        + "# ===================================\n"@
        + "# Custom Ignore Patterns\n"@
        + "# ===================================\n"@
        + "# Add your custom patterns below\n\n"@
}

/// Generates the `.oxenignore` file for a Logic Pro project. The content is
/// the same on every call.
pub fn generate_oxenignore() -> (content: String)
    ensures
        content@ == logic_oxenignore(),
{
    let mut content = String::new();
    content.append("# Oxen VCS - Logic Pro Ignore Rules\n");
    content.append("# Auto-generated ignore file for Logic Pro folder projects\n\n");
    content.append("# ===================================\n");
    content.append("# Volatile/Generated Files\n");
    content.append("# ===================================\n");
    content.append("# These files are regenerated and should not be versioned\n\n");
    content.append("Bounces/\n");
    content.append("Freeze Files/\n");
    content.append("*.nosync\n");
    content.append("Autosave/\n");
    content.append("Media.localized/\n\n");
    content.append("# ===================================\n");
    content.append("# System Files\n");
    content.append("# ===================================\n");
    content.append("# OS-specific metadata\n\n");
    content.append(".DS_Store\n");
    content.append("*.smbdelete*\n");
    content.append(".TemporaryItems\n");
    content.append(".Trashes\n");
    content.append(".fseventsd\n\n");
    content.append("# ===================================\n");
    content.append("# Cache and Temporary Files\n");
    content.append("# ===================================\n\n");
    content.append("*.cache\n");
    content.append("*.tmp\n");
    content.append("*~\n\n");
    content.append("# ===================================\n");
    content.append("# Custom Ignore Patterns\n");
    content.append("# ===================================\n");
    content.append("# Add your custom patterns below\n\n");
    content
}

/// Generates the `.oxenignore` file for a SketchUp project. The content is the
/// same on every call.
pub fn generate_sketchup_oxenignore() -> (content: String)
    ensures
        content@ == sketchup_oxenignore(),
{
    let mut content = String::new();
    content.append("# Oxen VCS - SketchUp Ignore Rules\n");
    content.append("# Auto-generated ignore file for SketchUp projects\n\n");
    content.append("# ===================================\n");
    content.append("# Backup and Temporary Files\n");
    content.append("# ===================================\n");
    content.append("# SketchUp automatically creates backup files that should not be versioned\n\n");
    content.append("*.skb\n");
    content.append("*~.skp\n");
    content.append("*.tmp\n");
    content.append("*.cache\n");
    content.append("*.swp\n");
    content.append(".sketchup_session\n\n");
    content.append("# ===================================\n");
    content.append("# Generated Output\n");
    content.append("# ===================================\n");
    content.append("# Exported and rendered files that can be regenerated\n\n");
    content.append("exports/\n");
    content.append("renders/\n");
    content.append("output/\n\n");
    content.append("# ===================================\n");
    content.append("# Cache and Thumbnails\n");
    content.append("# ===================================\n");
    content.append("# Generated preview and cache files\n\n");
    content.append(".thumbnails/\n");
    content.append("cache/\n\n");
    content.append("# ===================================\n");
    content.append("# System Files\n");
    content.append("# ===================================\n");
    content.append("# OS-specific metadata\n\n");
    content.append(".DS_Store\n");
    content.append("Thumbs.db\n");
    content.append("desktop.ini\n");
    content.append("*.smbdelete*\n\n");
    content.append("# ===================================\n");
    content.append("# Custom Ignore Patterns\n");
    content.append("# ===================================\n");
    content.append("# Add your custom patterns below\n\n");
    content
}

} // verus!

//! The application-wide settings.

use crate::strings::{clone_opt_string, clone_strings, text_of};
use crate::time::Timestamp;
use std::collections::HashMap;
use vstd::prelude::*;
use vstd::string::*;

verus! {

/// A JSON value of `serde_json`, carried through as it is: the settings of
/// a plugin are the plugin's own business.
#[verifier::external_type_specification]
#[verifier::external_body]
pub struct ExJsonValue(serde_json::Value);

/// The bit pattern of the single-precision number 1.5.
pub const LINE_HEIGHT_ONE_AND_A_HALF: u32 = 0x3FC0_0000;

/// All settings, and the instant at which they were last saved.
#[derive(Clone, Debug, PartialEq)]
pub struct AppConfig {
    pub general: GeneralConfig,
    pub editor: EditorConfig,
    pub ui: UIConfig,
    pub export: ExportConfig,
    pub writeflow: WriteFlowConfig,
    pub plugins: PluginConfig,
    pub updated_at: Timestamp,
}

/// Language, saving and backup.
#[derive(Clone, Debug, PartialEq, Eq)]
pub struct GeneralConfig {
    pub language: String,
    pub auto_save: bool,
    /// In seconds.
    pub auto_save_interval: u32,
    pub backup_enabled: bool,
    /// In minutes.
    pub backup_interval: u32,
    pub default_workspace: Option<String>,
    pub recent_files_limit: u32,
}

/// How the editor looks and behaves.
#[derive(Clone, Debug, PartialEq, Eq)]
pub struct EditorConfig {
    pub theme: String,
    pub font_family: String,
    pub font_size: u32,
    /// The line height as a multiple of the font size: the bit pattern of
    /// a single-precision floating-point number.
    pub line_height_bits: u32,
    pub word_wrap: bool,
    pub show_line_numbers: bool,
    pub show_minimap: bool,
    pub tab_size: u32,
    pub vim_mode: bool,
    pub spell_check: bool,
    pub grammar_check: bool,
    pub live_preview: bool,
}

/// The layout of the window.
#[derive(Clone, Copy, Debug, PartialEq, Eq, Structural)]
pub struct UIConfig {
    pub sidebar_width: u32,
    pub preview_width: u32,
    pub show_sidebar: bool,
    pub show_preview: bool,
    pub show_toolbar: bool,
    pub show_status_bar: bool,
    pub compact_mode: bool,
    pub color_scheme: ColorScheme,
}

/// Light or dark colours, or what the system says.
#[derive(Clone, Copy, Debug, PartialEq, Eq, Structural)]
pub enum ColorScheme {
    Light,
    Dark,
    Auto,
}

/// How documents are exported.
#[derive(Clone, Debug, PartialEq, Eq)]
pub struct ExportConfig {
    pub default_format: String,
    pub pdf_options: PdfExportOptions,
    pub html_options: HtmlExportOptions,
    pub markdown_options: MarkdownExportOptions,
}

/// Export to PDF.
#[derive(Clone, Debug, PartialEq, Eq)]
pub struct PdfExportOptions {
    pub page_size: String,
    pub margins: String,
    pub include_toc: bool,
    pub include_page_numbers: bool,
    pub custom_css: Option<String>,
}

/// Export to HTML.
#[derive(Clone, Debug, PartialEq, Eq)]
pub struct HtmlExportOptions {
    pub include_css: bool,
    pub standalone: bool,
    pub custom_template: Option<String>,
}

/// Export to Markdown.
#[derive(Clone, Debug, PartialEq, Eq)]
pub struct MarkdownExportOptions {
    pub format: String,
    pub include_metadata: bool,
    pub line_ending: String,
}

/// The command-line companion and how it is kept in step.
#[derive(Clone, Debug, PartialEq, Eq)]
pub struct WriteFlowConfig {
    pub cli_path: Option<String>,
    pub auto_sync: bool,
    /// In minutes.
    pub sync_interval: u32,
    pub default_template: Option<String>,
    pub custom_commands: HashMap<String, String>,
}

/// Which plugins run, and each plugin's own settings.
#[derive(Clone, Debug, PartialEq)]
pub struct PluginConfig {
    pub enabled_plugins: Vec<String>,
    pub plugin_settings: HashMap<String, serde_json::Value>,
}

impl GeneralConfig {
    /// The two hold the same settings.
    pub open spec fn same(self, other: GeneralConfig) -> bool {
        &&& self.language@ == other.language@
        &&& self.auto_save == other.auto_save
        &&& self.auto_save_interval == other.auto_save_interval
        &&& self.backup_enabled == other.backup_enabled
        &&& self.backup_interval == other.backup_interval
        &&& text_of(self.default_workspace) == text_of(other.default_workspace)
        &&& self.recent_files_limit == other.recent_files_limit
    }

    /// A copy of the settings.
    pub fn duplicate(&self) -> (copy: GeneralConfig)
        ensures
            copy.same(*self),
    {
        GeneralConfig {
            language: self.language.clone(),
            auto_save: self.auto_save,
            auto_save_interval: self.auto_save_interval,
            backup_enabled: self.backup_enabled,
            backup_interval: self.backup_interval,
            default_workspace: clone_opt_string(&self.default_workspace),
            recent_files_limit: self.recent_files_limit,
        }
    }

    /// The general settings of a new installation.
    pub open spec fn is_default(self) -> bool {
        &&& self.language@ == "zh-CN"@
        &&& self.auto_save
        &&& self.auto_save_interval == 30
        &&& self.backup_enabled
        &&& self.backup_interval == 10
        &&& self.default_workspace is None
        &&& self.recent_files_limit == 10
    }
}

impl EditorConfig {
    /// The two hold the same settings.
    pub open spec fn same(self, other: EditorConfig) -> bool {
        &&& self.theme@ == other.theme@
        &&& self.font_family@ == other.font_family@
        &&& self.font_size == other.font_size
        &&& self.line_height_bits == other.line_height_bits
        &&& self.word_wrap == other.word_wrap
        &&& self.show_line_numbers == other.show_line_numbers
        &&& self.show_minimap == other.show_minimap
        &&& self.tab_size == other.tab_size
        &&& self.vim_mode == other.vim_mode
        &&& self.spell_check == other.spell_check
        &&& self.grammar_check == other.grammar_check
        &&& self.live_preview == other.live_preview
    }

    /// A copy of the settings.
    pub fn duplicate(&self) -> (copy: EditorConfig)
        ensures
            copy.same(*self),
    {
        EditorConfig {
            theme: self.theme.clone(),
            font_family: self.font_family.clone(),
            font_size: self.font_size,
            line_height_bits: self.line_height_bits,
            word_wrap: self.word_wrap,
            show_line_numbers: self.show_line_numbers,
            show_minimap: self.show_minimap,
            tab_size: self.tab_size,
            vim_mode: self.vim_mode,
            spell_check: self.spell_check,
            grammar_check: self.grammar_check,
            live_preview: self.live_preview,
        }
    }

    /// The editor settings of a new installation.
    pub open spec fn is_default(self) -> bool {
        &&& self.theme@ == "default"@
        &&& self.font_family@ == "Monaco"@
        &&& self.font_size == 14
        &&& self.line_height_bits == LINE_HEIGHT_ONE_AND_A_HALF
        &&& self.word_wrap
        &&& self.show_line_numbers
        &&& !self.show_minimap
        &&& self.tab_size == 2
        &&& !self.vim_mode
        &&& self.spell_check
        &&& !self.grammar_check
        &&& self.live_preview
    }
}

impl UIConfig {
    /// The window layout of a new installation.
    pub open spec fn defaults() -> UIConfig {
        UIConfig {
            sidebar_width: 280,
            preview_width: 400,
            show_sidebar: true,
            show_preview: true,
            show_toolbar: true,
            show_status_bar: true,
            compact_mode: false,
            color_scheme: ColorScheme::Auto,
        }
    }
}

impl ExportConfig {
    /// The two hold the same settings.
    pub open spec fn same(self, other: ExportConfig) -> bool {
        &&& self.default_format@ == other.default_format@
        &&& self.pdf_options.page_size@ == other.pdf_options.page_size@
        &&& self.pdf_options.margins@ == other.pdf_options.margins@
        &&& self.pdf_options.include_toc == other.pdf_options.include_toc
        &&& self.pdf_options.include_page_numbers == other.pdf_options.include_page_numbers
        &&& text_of(self.pdf_options.custom_css) == text_of(other.pdf_options.custom_css)
        &&& self.html_options.include_css == other.html_options.include_css
        &&& self.html_options.standalone == other.html_options.standalone
        &&& text_of(self.html_options.custom_template) == text_of(
            other.html_options.custom_template,
        )
        &&& self.markdown_options.format@ == other.markdown_options.format@
        &&& self.markdown_options.include_metadata == other.markdown_options.include_metadata
        &&& self.markdown_options.line_ending@ == other.markdown_options.line_ending@
    }

    /// A copy of the settings.
    pub fn duplicate(&self) -> (copy: ExportConfig)
        ensures
            copy.same(*self),
    {
        ExportConfig {
            default_format: self.default_format.clone(),
            pdf_options: PdfExportOptions {
                page_size: self.pdf_options.page_size.clone(),
                margins: self.pdf_options.margins.clone(),
                include_toc: self.pdf_options.include_toc,
                include_page_numbers: self.pdf_options.include_page_numbers,
                custom_css: clone_opt_string(&self.pdf_options.custom_css),
            },
            html_options: HtmlExportOptions {
                include_css: self.html_options.include_css,
                standalone: self.html_options.standalone,
                custom_template: clone_opt_string(&self.html_options.custom_template),
            },
            markdown_options: MarkdownExportOptions {
                format: self.markdown_options.format.clone(),
                include_metadata: self.markdown_options.include_metadata,
                line_ending: self.markdown_options.line_ending.clone(),
            },
        }
    }

    /// The export settings of a new installation.
    pub open spec fn is_default(self) -> bool {
        &&& self.default_format@ == "pdf"@
        &&& self.pdf_options.page_size@ == "A4"@
        &&& self.pdf_options.margins@ == "2cm"@
        &&& self.pdf_options.include_toc
        &&& self.pdf_options.include_page_numbers
        &&& self.pdf_options.custom_css is None
        &&& self.html_options.include_css
        &&& self.html_options.standalone
        &&& self.html_options.custom_template is None
        &&& self.markdown_options.format@ == "CommonMark"@
        &&& self.markdown_options.include_metadata
        &&& self.markdown_options.line_ending@ == "LF"@
    }
}

impl WriteFlowConfig {
    /// The two hold the same settings.
    pub open spec fn same(self, other: WriteFlowConfig) -> bool {
        &&& text_of(self.cli_path) == text_of(other.cli_path)
        &&& self.auto_sync == other.auto_sync
        &&& self.sync_interval == other.sync_interval
        &&& text_of(self.default_template) == text_of(other.default_template)
        &&& self.custom_commands@ == other.custom_commands@
    }

    /// A copy of the settings.
    pub fn duplicate(&self) -> (copy: WriteFlowConfig)
        ensures
            copy.same(*self),
    {
        WriteFlowConfig {
            cli_path: clone_opt_string(&self.cli_path),
            auto_sync: self.auto_sync,
            sync_interval: self.sync_interval,
            default_template: clone_opt_string(&self.default_template),
            custom_commands: self.custom_commands.clone(),
        }
    }

    /// The companion settings of a new installation.
    pub open spec fn is_default(self) -> bool {
        &&& self.cli_path is None
        &&& !self.auto_sync
        &&& self.sync_interval == 5
        &&& self.default_template is None
        &&& self.custom_commands@ == Map::<String, String>::empty()
    }
}

impl PluginConfig {
    /// The two hold the same settings.
    pub open spec fn same(self, other: PluginConfig) -> bool {
        &&& self.enabled_plugins.deep_view() == other.enabled_plugins.deep_view()
        &&& self.plugin_settings@ == other.plugin_settings@
    }

    /// A copy of the settings.
    pub fn duplicate(&self) -> (copy: PluginConfig)
        ensures
            copy.same(*self),
    {
        let copy = PluginConfig {
            enabled_plugins: clone_strings(&self.enabled_plugins),
            plugin_settings: self.plugin_settings.clone(),
        };
        assert(copy.enabled_plugins.deep_view() =~= self.enabled_plugins.deep_view());
        copy
    }

    /// The plugin settings of a new installation: no plugin at all.
    pub open spec fn is_default(self) -> bool {
        &&& self.enabled_plugins@.len() == 0
        &&& self.plugin_settings@ == Map::<String, serde_json::Value>::empty()
    }
}

impl AppConfig {
    /// Every setting has the value of a new installation.
    pub open spec fn has_default_settings(self) -> bool {
        &&& self.general.is_default()
        &&& self.editor.is_default()
        &&& self.ui == UIConfig::defaults()
        &&& self.export.is_default()
        &&& self.writeflow.is_default()
        &&& self.plugins.is_default()
    }

    /// The two hold the same settings; the instants of saving may differ.
    pub open spec fn same_settings(self, other: AppConfig) -> bool {
        &&& self.general.same(other.general)
        &&& self.editor.same(other.editor)
        &&& self.ui == other.ui
        &&& self.export.same(other.export)
        &&& self.writeflow.same(other.writeflow)
        &&& self.plugins.same(other.plugins)
    }

    /// The two hold the same settings and were saved at the same instant.
    pub open spec fn same(self, other: AppConfig) -> bool {
        self.same_settings(other) && self.updated_at == other.updated_at
    }

    /// Any two configurations with the settings of a new installation hold
    /// the same settings.
    pub proof fn lemma_defaults_agree(self, other: AppConfig)
        requires
            self.has_default_settings(),
            other.has_default_settings(),
        ensures
            self.same_settings(other),
    {
        assert(self.plugins.enabled_plugins.deep_view() =~= other.plugins.enabled_plugins.deep_view());
    }

    /// A copy of the configuration.
    pub fn duplicate(&self) -> (copy: AppConfig)
        ensures
            copy.same(*self),
    {
        AppConfig {
            general: self.general.duplicate(),
            editor: self.editor.duplicate(),
            ui: self.ui,
            export: self.export.duplicate(),
            writeflow: self.writeflow.duplicate(),
            plugins: self.plugins.duplicate(),
            updated_at: self.updated_at,
        }
    }

    /// The settings of a new installation, saved at `now`.
    pub fn with_defaults(now: Timestamp) -> (config: AppConfig)
        ensures
            config.has_default_settings(),
            config.updated_at == now,
    {
        AppConfig {
            general: GeneralConfig {
                language: String::from_str("zh-CN"),
                auto_save: true,
                auto_save_interval: 30,
                backup_enabled: true,
                backup_interval: 10,
                default_workspace: None,
                recent_files_limit: 10,
            },
            editor: EditorConfig {
                theme: String::from_str("default"),
                font_family: String::from_str("Monaco"),
                font_size: 14,
                line_height_bits: LINE_HEIGHT_ONE_AND_A_HALF,
                word_wrap: true,
                show_line_numbers: true,
                show_minimap: false,
                tab_size: 2,
                vim_mode: false,
                spell_check: true,
                grammar_check: false,
                live_preview: true,
            },
            ui: UIConfig {
                sidebar_width: 280,
                preview_width: 400,
                show_sidebar: true,
                show_preview: true,
                show_toolbar: true,
                show_status_bar: true,
                compact_mode: false,
                color_scheme: ColorScheme::Auto,
            },
            export: ExportConfig {
                default_format: String::from_str("pdf"),
                pdf_options: PdfExportOptions {
                    page_size: String::from_str("A4"),
                    margins: String::from_str("2cm"),
                    include_toc: true,
                    include_page_numbers: true,
                    custom_css: None,
                },
                html_options: HtmlExportOptions {
                    include_css: true,
                    standalone: true,
                    custom_template: None,
                },
                markdown_options: MarkdownExportOptions {
                    format: String::from_str("CommonMark"),
                    include_metadata: true,
                    line_ending: String::from_str("LF"),
                },
            },
            writeflow: WriteFlowConfig {
                cli_path: None,
                auto_sync: false,
                sync_interval: 5,
                default_template: None,
                custom_commands: HashMap::new(),
            },
            plugins: PluginConfig { enabled_plugins: Vec::new(), plugin_settings: HashMap::new() },
            updated_at: now,
        }
    }
}

impl Default for AppConfig {
    /// The settings of a new installation, saved at the current instant.
    fn default() -> (config: AppConfig)
        ensures
            config.has_default_settings(),
    {
        AppConfig::with_defaults(Timestamp::now())
    }
}

} // verus!

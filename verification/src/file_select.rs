use vstd::prelude::*;

verus! {

/// Extension filters for the file dialog.
#[derive(Debug, Clone, PartialEq)]
pub struct FileSelectFilters {
    /// The filter name.
    pub name: String,
    /// The extensions to filter.
    pub extensions: Vec<String>,
}

/// Arguments passed to the file dialog.
#[derive(Debug, Clone, PartialEq)]
pub struct FileSelectArgs {
    /// The path to start the file selection from.
    pub default_path: Option<String>,
    /// The file selection dialog window title.
    pub title: Option<String>,
    /// Whether to allow directory selection.
    pub directory: bool,
    /// Whether to allow selection of multiple files.
    pub multiple: bool,
    /// A list of dialog filters.
    pub filters: Option<Vec<FileSelectFilters>>,
}

/// File selection configuration; `F` is the type of the selection callback.
#[derive(Debug, Clone)]
pub struct FileSelectConfig<F> {
    /// The path to start the file selection from.
    start_path: Option<String>,
    /// The file selection dialog window title.
    dialog_title: Option<String>,
    /// Whether to allow directory selection.
    directory: bool,
    /// Whether to allow selection of multiple files.
    multiple: bool,
    /// A list of acceptable file extensions. If not set, all files will be
    /// allowed.
    extensions: Option<Vec<String>>,
    /// The callback called when the user selects a file.
    on_select: Option<F>,
}

impl<F> FileSelectConfig<F> {
    /// The path to start the file selection from.
    pub closed spec fn spec_start_path(&self) -> Option<String> {
        self.start_path
    }

    /// The file selection dialog window title.
    pub closed spec fn spec_dialog_title(&self) -> Option<String> {
        self.dialog_title
    }

    /// Whether directories can be selected.
    pub closed spec fn spec_directory(&self) -> bool {
        self.directory
    }

    /// Whether several files can be selected.
    pub closed spec fn spec_multiple(&self) -> bool {
        self.multiple
    }

    /// The acceptable file extensions.
    pub closed spec fn spec_extensions(&self) -> Option<Vec<String>> {
        self.extensions
    }

    /// The selection callback.
    pub closed spec fn spec_on_select(&self) -> Option<F> {
        self.on_select
    }

    /// Create a new default configuration: nothing set, nothing allowed
    /// beyond single file selection, and no callback.
    pub fn new() -> (r: Self)
        ensures
            r.spec_start_path() is None,
            r.spec_dialog_title() is None,
            !r.spec_directory(),
            !r.spec_multiple(),
            r.spec_extensions() is None,
            r.spec_on_select() is None,
    {
        FileSelectConfig {
            start_path: None,
            dialog_title: None,
            directory: false,
            multiple: false,
            extensions: None,
            on_select: None,
        }
    }

    /// Sets the path to start the file selection from.
    pub fn start_path(self, path: Option<String>) -> (r: Self)
        ensures
            r.spec_start_path() == path,
            r.spec_dialog_title() == self.spec_dialog_title(),
            r.spec_directory() == self.spec_directory(),
            r.spec_multiple() == self.spec_multiple(),
            r.spec_extensions() == self.spec_extensions(),
            r.spec_on_select() == self.spec_on_select(),
    {
        FileSelectConfig { start_path: path, ..self }
    }

    /// Sets the file selection dialog window title.
    pub fn dialog_title(self, title: Option<String>) -> (r: Self)
        ensures
            r.spec_start_path() == self.spec_start_path(),
            r.spec_dialog_title() == title,
            r.spec_directory() == self.spec_directory(),
            r.spec_multiple() == self.spec_multiple(),
            r.spec_extensions() == self.spec_extensions(),
            r.spec_on_select() == self.spec_on_select(),
    {
        FileSelectConfig { dialog_title: title, ..self }
    }

    /// Enables or disables directory selection.
    pub fn directory(self, allow: bool) -> (r: Self)
        ensures
            r.spec_start_path() == self.spec_start_path(),
            r.spec_dialog_title() == self.spec_dialog_title(),
            r.spec_directory() == allow,
            r.spec_multiple() == self.spec_multiple(),
            r.spec_extensions() == self.spec_extensions(),
            r.spec_on_select() == self.spec_on_select(),
    {
        FileSelectConfig { directory: allow, ..self }
    }

    /// Enables or disables multiple file selection.
    pub fn multiple(self, allow: bool) -> (r: Self)
        ensures
            r.spec_start_path() == self.spec_start_path(),
            r.spec_dialog_title() == self.spec_dialog_title(),
            r.spec_directory() == self.spec_directory(),
            r.spec_multiple() == allow,
            r.spec_extensions() == self.spec_extensions(),
            r.spec_on_select() == self.spec_on_select(),
    {
        FileSelectConfig { multiple: allow, ..self }
    }

    /// Sets the allowed file extensions. If not specified, all file
    /// extensions will be allowed.
    pub fn extensions(self, exts: Option<Vec<String>>) -> (r: Self)
        ensures
            r.spec_start_path() == self.spec_start_path(),
            r.spec_dialog_title() == self.spec_dialog_title(),
            r.spec_directory() == self.spec_directory(),
            r.spec_multiple() == self.spec_multiple(),
            r.spec_extensions() == exts,
            r.spec_on_select() == self.spec_on_select(),
    {
        FileSelectConfig { extensions: exts, ..self }
    }

    /// Sets the callback function for when the user selects a file.
    pub fn on_select(self, f: F) -> (r: Self)
        ensures
            r.spec_start_path() == self.spec_start_path(),
            r.spec_dialog_title() == self.spec_dialog_title(),
            r.spec_directory() == self.spec_directory(),
            r.spec_multiple() == self.spec_multiple(),
            r.spec_extensions() == self.spec_extensions(),
            r.spec_on_select() == Some(f),
    {
        FileSelectConfig { on_select: Some(f), ..self }
    }

    /// The selection callback, if one is set.
    pub fn callback(&self) -> (r: Option<&F>)
        ensures
            match self.spec_on_select() {
                Some(f) => r == Some(&f),
                None => r is None,
            },
    {
        match &self.on_select {
            Some(f) => Some(f),
            None => None,
        }
    }

    /// Convert the configuration into the arguments for the the file open
    /// API: the same start path, title and flags, and, when extensions are
    /// set, one filter named "File types" holding them.
    pub fn to_args(&self) -> (r: FileSelectArgs)
        ensures
            r.default_path == self.spec_start_path(),
            r.title == self.spec_dialog_title(),
            r.directory == self.spec_directory(),
            r.multiple == self.spec_multiple(),
            match self.spec_extensions() {
                Some(exts) => r.filters matches Some(fs) && fs@.len() == 1
                    && fs@[0].name@ == "File types"@ && fs@[0].extensions@ == exts@,
                None => r.filters is None,
            },
    {
        let filters = match &self.extensions {
            Some(exts) => {
                let mut v: Vec<FileSelectFilters> = Vec::new();
                v.push(FileSelectFilters { name: "File types".to_owned(), extensions: exts.clone() });
                Some(v)
            },
            None => None,
        };
        FileSelectArgs {
            default_path: self.start_path.clone(),
            title: self.dialog_title.clone(),
            directory: self.directory,
            multiple: self.multiple,
            filters,
        }
    }
}

} // verus!

//! Settings for an embedded web view.
use vstd::prelude::*;
use vstd::string::StringExecFns;

verus! {

/// Collects the settings of a web view before it is created.
pub struct WebViewBuilder {
    url: Option<String>,
    user_data_folder: Option<String>,
    enable_dev_tools: bool,
    enable_context_menu: bool,
    enable_zoom: bool,
}

/// The settings a builder holds.
pub struct WebViewSettings {
    /// The first page to open.
    pub url: Option<Seq<char>>,
    /// The folder of the browser profile.
    pub user_data_folder: Option<Seq<char>>,
    /// Developer tools are available.
    pub dev_tools: bool,
    /// The context menu is available.
    pub context_menu: bool,
    /// Zooming is allowed.
    pub zoom: bool,
}

/// The text of an optional string.
pub open spec fn text_view(s: Option<String>) -> Option<Seq<char>> {
    match s {
        Some(t) => Some(t@),
        None => None,
    }
}

impl View for WebViewBuilder {
    type V = WebViewSettings;

    closed spec fn view(&self) -> WebViewSettings {
        WebViewSettings {
            url: text_view(self.url),
            user_data_folder: text_view(self.user_data_folder),
            dev_tools: self.enable_dev_tools,
            context_menu: self.enable_context_menu,
            zoom: self.enable_zoom,
        }
    }
}

impl WebViewBuilder {
    /// No URL and no data folder; developer tools off, context menu and zoom on.
    pub fn new() -> (r: WebViewBuilder)
        ensures
            r@ == (WebViewSettings {
                url: None,
                user_data_folder: None,
                dev_tools: false,
                context_menu: true,
                zoom: true,
            }),
    {
        WebViewBuilder {
            url: None,
            user_data_folder: None,
            enable_dev_tools: false,
            enable_context_menu: true,
            enable_zoom: true,
        }
    }

    /// Sets the first page to open.
    pub fn with_url(self, url: &str) -> (r: WebViewBuilder)
        ensures
            r@ == (WebViewSettings { url: Some(url@), ..self@ }),
    {
        WebViewBuilder { url: Some(String::from_str(url)), ..self }
    }

    /// Sets the folder for the browser profile.
    pub fn with_user_data_folder(self, path: &str) -> (r: WebViewBuilder)
        ensures
            r@ == (WebViewSettings { user_data_folder: Some(path@), ..self@ }),
    {
        WebViewBuilder { user_data_folder: Some(String::from_str(path)), ..self }
    }

    /// Turns the developer tools on or off.
    pub fn with_dev_tools(self, enable: bool) -> (r: WebViewBuilder)
        ensures
            r@ == (WebViewSettings { dev_tools: enable, ..self@ }),
    {
        WebViewBuilder { enable_dev_tools: enable, ..self }
    }

    /// Turns the context menu on or off.
    pub fn with_context_menu(self, enable: bool) -> (r: WebViewBuilder)
        ensures
            r@ == (WebViewSettings { context_menu: enable, ..self@ }),
    {
        WebViewBuilder { enable_context_menu: enable, ..self }
    }

    /// Turns zooming on or off.
    pub fn with_zoom(self, enable: bool) -> (r: WebViewBuilder)
        ensures
            r@ == (WebViewSettings { zoom: enable, ..self@ }),
    {
        WebViewBuilder { enable_zoom: enable, ..self }
    }
}

} // verus!

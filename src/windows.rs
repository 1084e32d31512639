//! Top-level windows of the desktop, as a provider lists them.
use vstd::prelude::*;

verus! {

/// One window, with the monitor it is on when that is known.
#[derive(Debug, Clone, PartialEq)]
pub struct WindowInfo {
    pub id: u32,
    pub monitor_id: Option<u32>,
    pub app_name: String,
    pub title: String,
    pub x: i32,
    pub y: i32,
    pub width: u32,
    pub height: u32,
    pub z: i32,
    pub is_focused: bool,
}

/// Lists the windows currently open.
pub trait WindowProvider {
    /// What `list_windows` returns, for an implementation that states it;
    /// `None`, the default, promises nothing.
    open spec fn listing(&self) -> Option<Result<Seq<WindowInfo>, Seq<char>>> {
        None
    }

    fn list_windows(&self) -> (r: Result<Vec<WindowInfo>, String>)
        ensures
            self.listing() matches Some(l) ==> crate::geometry::listing_view(r) == l,
    ;
}

/// The windows that `provider` lists, or its error as it came.
pub fn get_windows_with_provider<P: WindowProvider>(provider: &P) -> (r: Result<
    Vec<WindowInfo>,
    String,
>)
    ensures
        provider.listing() matches Some(l) ==> crate::geometry::listing_view(r) == l,
{
    provider.list_windows()
}

} // verus!

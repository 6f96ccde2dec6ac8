use vstd::prelude::*;

use super::keycodes::{MouseButton, VirtualKeyCode};
use super::structs::WindowType;
use super::window_event::{
    ButtonEvent, ConfigureEvent, DestroyEvent, EnterEvent, FullscreenEvent, FullscreenState, KeyEvent, KeyState, MapEvent,
    ModifierKey, ModifierState, MotionEvent, UnmapEvent, WindowEvent, holds, ALT_BIT, ALT_GR_BIT, CONTROL_BIT, SHIFT_BIT,
    SUPER_BIT,
};
use crate::util::{Point, Size};

verus! {

// ---------------------------------------------------------------------------
// Values of the X protocol.
// ---------------------------------------------------------------------------

pub const SHIFT_MASK: u32 = 1;
pub const LOCK_MASK: u32 = 2;
pub const CONTROL_MASK: u32 = 4;
pub const MOD1_MASK: u32 = 8;
pub const MOD2_MASK: u32 = 16;
pub const MOD3_MASK: u32 = 32;
pub const MOD4_MASK: u32 = 64;
pub const MOD5_MASK: u32 = 128;

pub const CW_X: u32 = 1;
pub const CW_Y: u32 = 2;
pub const CW_WIDTH: u32 = 4;
pub const CW_HEIGHT: u32 = 8;
pub const CW_BORDER_WIDTH: u32 = 16;

// ---------------------------------------------------------------------------
// Errors.
// ---------------------------------------------------------------------------

/// An X protocol error.
#[derive(Debug, Clone, Copy, PartialEq, Eq, Structural)]
pub enum XlibError {
    BadAccess,
    BadAlloc,
    BadAtom,
    BadColor,
    BadCursor,
    BadDrawable,
    BadFont,
    BadGC,
    BadIDChoice,
    BadImplementation,
    BadLength,
    BadMatch,
    BadName,
    BadPixmap,
    BadRequest,
    BadValue,
    BadWindow,
    InvalidError(u8),
}

/// The error that the X protocol numbers `code`.
pub open spec fn xlib_error_of(code: u8) -> XlibError {
    if code == 1 {
        XlibError::BadRequest
    } else if code == 2 {
        XlibError::BadValue
    } else if code == 3 {
        XlibError::BadWindow
    } else if code == 4 {
        XlibError::BadPixmap
    } else if code == 5 {
        XlibError::BadAtom
    } else if code == 6 {
        XlibError::BadCursor
    } else if code == 7 {
        XlibError::BadFont
    } else if code == 8 {
        XlibError::BadMatch
    } else if code == 9 {
        XlibError::BadDrawable
    } else if code == 10 {
        XlibError::BadAccess
    } else if code == 11 {
        XlibError::BadAlloc
    } else if code == 12 {
        XlibError::BadColor
    } else if code == 13 {
        XlibError::BadGC
    } else if code == 14 {
        XlibError::BadIDChoice
    } else if code == 15 {
        XlibError::BadName
    } else if code == 16 {
        XlibError::BadLength
    } else if code == 17 {
        XlibError::BadImplementation
    } else {
        XlibError::InvalidError(code)
    }
}

impl From<u8> for XlibError {
    fn from(value: u8) -> (r: Self) {
        match value {
            1 => XlibError::BadRequest,
            2 => XlibError::BadValue,
            3 => XlibError::BadWindow,
            4 => XlibError::BadPixmap,
            5 => XlibError::BadAtom,
            6 => XlibError::BadCursor,
            7 => XlibError::BadFont,
            8 => XlibError::BadMatch,
            9 => XlibError::BadDrawable,
            10 => XlibError::BadAccess,
            11 => XlibError::BadAlloc,
            12 => XlibError::BadColor,
            13 => XlibError::BadGC,
            14 => XlibError::BadIDChoice,
            15 => XlibError::BadName,
            16 => XlibError::BadLength,
            17 => XlibError::BadImplementation,
            any => XlibError::InvalidError(any),
        }
    }
}

impl vstd::std_specs::convert::FromSpecImpl<u8> for XlibError {
    open spec fn obeys_from_spec() -> bool {
        true
    }

    open spec fn from_spec(v: u8) -> XlibError {
        xlib_error_of(v)
    }
}

impl XlibError {
    /// Errors the window manager lives with (a window that went away, a request it may not
    /// make); any other error ends it.
    pub fn is_recoverable(&self) -> (r: bool)
        ensures
            r == (*self == XlibError::BadAccess || *self == XlibError::BadMatch || *self == XlibError::BadWindow
                || *self == XlibError::BadDrawable),
    {
        match self {
            XlibError::BadAccess | XlibError::BadMatch | XlibError::BadWindow | XlibError::BadDrawable => true,
            _ => false,
        }
    }
}

// ---------------------------------------------------------------------------
// Atoms.
// ---------------------------------------------------------------------------

/// The ICCCM atoms the window manager uses, in the order in which they are interned.
#[derive(Debug, PartialEq, Eq, Clone, Copy, Structural)]
pub enum ICCCMAtom {
    WmName,
    WmProtocols,
    WmDeleteWindow,
    WmActiveWindow,
    WmTakeFocus,
    WmState,
    WmTransientFor,
    Utf8String,
}

/// The number of ICCCM atoms.
pub const ICCCM_ATOM_COUNT: usize = 8;

/// The position of `atom` among the ICCCM atoms.
pub open spec fn icccm_index(atom: ICCCMAtom) -> usize {
    match atom {
        ICCCMAtom::WmName => 0usize,
        ICCCMAtom::WmProtocols => 1usize,
        ICCCMAtom::WmDeleteWindow => 2usize,
        ICCCMAtom::WmActiveWindow => 3usize,
        ICCCMAtom::WmTakeFocus => 4usize,
        ICCCMAtom::WmState => 5usize,
        ICCCMAtom::WmTransientFor => 6usize,
        ICCCMAtom::Utf8String => 7usize,
    }
}

/// The name under which `atom` is interned.
pub open spec fn icccm_name(atom: ICCCMAtom) -> &'static str {
    match atom {
        ICCCMAtom::WmName => "WM_NAME",
        ICCCMAtom::WmProtocols => "WM_PROTOCOLS",
        ICCCMAtom::WmDeleteWindow => "WM_DELETE_WINDOW",
        ICCCMAtom::WmActiveWindow => "WM_ACTIVE_WINDOW",
        ICCCMAtom::WmTakeFocus => "WM_TAKE_FOCUS",
        ICCCMAtom::WmState => "WM_STATE",
        ICCCMAtom::WmTransientFor => "WM_TRANSIENT_FOR",
        ICCCMAtom::Utf8String => "UTF8_STRING",
    }
}

impl From<ICCCMAtom> for usize {
    fn from(atom: ICCCMAtom) -> (r: usize) {
        match atom {
            ICCCMAtom::WmName => 0,
            ICCCMAtom::WmProtocols => 1,
            ICCCMAtom::WmDeleteWindow => 2,
            ICCCMAtom::WmActiveWindow => 3,
            ICCCMAtom::WmTakeFocus => 4,
            ICCCMAtom::WmState => 5,
            ICCCMAtom::WmTransientFor => 6,
            ICCCMAtom::Utf8String => 7,
        }
    }
}

impl vstd::std_specs::convert::FromSpecImpl<ICCCMAtom> for usize {
    open spec fn obeys_from_spec() -> bool {
        true
    }

    open spec fn from_spec(v: ICCCMAtom) -> usize {
        icccm_index(v)
    }
}

impl From<ICCCMAtom> for &'static str {
    fn from(atom: ICCCMAtom) -> (r: &'static str) {
        match atom {
            ICCCMAtom::WmName => "WM_NAME",
            ICCCMAtom::WmProtocols => "WM_PROTOCOLS",
            ICCCMAtom::WmDeleteWindow => "WM_DELETE_WINDOW",
            ICCCMAtom::WmActiveWindow => "WM_ACTIVE_WINDOW",
            ICCCMAtom::WmTakeFocus => "WM_TAKE_FOCUS",
            ICCCMAtom::WmState => "WM_STATE",
            ICCCMAtom::WmTransientFor => "WM_TRANSIENT_FOR",
            ICCCMAtom::Utf8String => "UTF8_STRING",
        }
    }
}

impl vstd::std_specs::convert::FromSpecImpl<ICCCMAtom> for &'static str {
    open spec fn obeys_from_spec() -> bool {
        true
    }

    open spec fn from_spec(v: ICCCMAtom) -> &'static str {
        icccm_name(v)
    }
}

impl ICCCMAtom {
    /// All ICCCM atoms, in order.
    pub fn iter() -> (r: Vec<ICCCMAtom>)
        ensures
            r@.len() == ICCCM_ATOM_COUNT,
            forall|i: int| 0 <= i < ICCCM_ATOM_COUNT ==> icccm_index(#[trigger] r@[i]) == i,
    {
        let mut r: Vec<ICCCMAtom> = Vec::new();
        r.push(ICCCMAtom::WmName);
        r.push(ICCCMAtom::WmProtocols);
        r.push(ICCCMAtom::WmDeleteWindow);
        r.push(ICCCMAtom::WmActiveWindow);
        r.push(ICCCMAtom::WmTakeFocus);
        r.push(ICCCMAtom::WmState);
        r.push(ICCCMAtom::WmTransientFor);
        r.push(ICCCMAtom::Utf8String);
        r
    }
}

/// The interned values of the ICCCM atoms, in the order of `ICCCMAtom`.
#[derive(Debug, Clone)]
pub struct ICCCMAtoms {
    inner: Vec<u64>,
}

impl View for ICCCMAtoms {
    type V = Seq<u64>;

    closed spec fn view(&self) -> Seq<u64> {
        self.inner@
    }
}

impl ICCCMAtoms {
    pub open spec fn wf(&self) -> bool {
        self@.len() == ICCCM_ATOM_COUNT
    }

    /// The atoms, from the server's answer for each name in order: none if the server
    /// gave none (zero) for some name.
    pub fn from_interned(interned: Vec<u64>) -> (r: Option<Self>)
        requires
            interned@.len() == ICCCM_ATOM_COUNT,
        ensures
            r is Some <==> forall|i: int| 0 <= i < interned@.len() ==> interned@[i] != 0,
            r matches Some(atoms) ==> atoms@ == interned@ && atoms.wf(),
    {
        let mut i: usize = 0;
        while i < interned.len()
            invariant
                i <= interned@.len(),
                forall|j: int| 0 <= j < i ==> interned@[j] != 0,
            decreases interned@.len() - i,
        {
            if interned[i] == 0 {
                return None;
            }
            i = i + 1;
        }
        Some(ICCCMAtoms { inner: interned })
    }

    /// The interned value of `atom`.
    pub fn index(&self, atom: ICCCMAtom) -> (r: u64)
        requires
            self.wf(),
        ensures
            r == self@[icccm_index(atom) as int],
    {
        self.inner[usize::from(atom)]
    }
}

/// The EWMH atoms the window manager knows, in the order in which they are interned.
#[derive(Debug, PartialEq, Eq, Clone, Copy, Structural)]
pub enum EWMHAtom {
    NetSupported,
    NetClientList,
    NetNumberOfDesktops,
    NetDesktopGeometry,
    NetDesktopViewport,
    NetCurrentDesktop,
    NetDesktopNames,
    NetActiveWindow,
    NetWorkarea,
    NetSupportingWmCheck,
    NetVirtualRoots,
    NetDesktopLayout,
    NetShowingDesktop,
    NetCloseWindow,
    NetMoveresizeWindow,
    NetWmMoveresize,
    NetRestackWindow,
    NetRequestFrameExtents,
    NetWmName,
    NetWmVisibleName,
    NetWmIconName,
    NetWmVisibleIconName,
    NetWmDesktop,
    NetWmWindowType,
    NetWmState,
    NetWmAllowedActions,
    NetWmStrut,
    NetWmStrutPartial,
    NetWmIconGeometry,
    NetWmIcon,
    NetWmPid,
    NetWmHandledIcons,
    NetWmUserTime,
    NetFrameExtents,
    NetWmPing,
    NetWmSyncRequest,
    NetWmWindowTypeDesktop,
    NetWmWindowTypeDock,
    NetWmWindowTypeToolbar,
    NetWmWindowTypeMenu,
    NetWmWindowTypeUtility,
    NetWmWindowTypeSplash,
    NetWmWindowTypeDialog,
    NetWmWindowTypeNormal,
    NetWmStateModal,
    NetWmStateSticky,
    NetWmStateMaximizedVert,
    NetWmStateMaximizedHorz,
    NetWmStateShaded,
    NetWmStateSkipTaskbar,
    NetWmStateSkipPager,
    NetWmStateHidden,
    NetWmStateFullscreen,
    NetWmStateAbove,
    NetWmStateBelow,
    NetWmStateDemandsAttention,
    NetWmActionMove,
    NetWmActionResize,
    NetWmActionMinimize,
    NetWmActionShade,
    NetWmActionStick,
    NetWmActionMaximizeHorz,
    NetWmActionMaximizeVert,
    NetWmActionFullscreen,
    NetWmActionChangeDesktop,
    NetWmActionClose,
}

/// The number of EWMH atoms.
pub const EWMH_ATOM_COUNT: usize = 66;

/// The position of `atom` among the EWMH atoms.
pub open spec fn ewmh_index(atom: EWMHAtom) -> usize {
    match atom {
        EWMHAtom::NetSupported => 0usize,
        EWMHAtom::NetClientList => 1usize,
        EWMHAtom::NetNumberOfDesktops => 2usize,
        EWMHAtom::NetDesktopGeometry => 3usize,
        EWMHAtom::NetDesktopViewport => 4usize,
        EWMHAtom::NetCurrentDesktop => 5usize,
        EWMHAtom::NetDesktopNames => 6usize,
        EWMHAtom::NetActiveWindow => 7usize,
        EWMHAtom::NetWorkarea => 8usize,
        EWMHAtom::NetSupportingWmCheck => 9usize,
        EWMHAtom::NetVirtualRoots => 10usize,
        EWMHAtom::NetDesktopLayout => 11usize,
        EWMHAtom::NetShowingDesktop => 12usize,
        EWMHAtom::NetCloseWindow => 13usize,
        EWMHAtom::NetMoveresizeWindow => 14usize,
        EWMHAtom::NetWmMoveresize => 15usize,
        EWMHAtom::NetRestackWindow => 16usize,
        EWMHAtom::NetRequestFrameExtents => 17usize,
        EWMHAtom::NetWmName => 18usize,
        EWMHAtom::NetWmVisibleName => 19usize,
        EWMHAtom::NetWmIconName => 20usize,
        EWMHAtom::NetWmVisibleIconName => 21usize,
        EWMHAtom::NetWmDesktop => 22usize,
        EWMHAtom::NetWmWindowType => 23usize,
        EWMHAtom::NetWmState => 24usize,
        EWMHAtom::NetWmAllowedActions => 25usize,
        EWMHAtom::NetWmStrut => 26usize,
        EWMHAtom::NetWmStrutPartial => 27usize,
        EWMHAtom::NetWmIconGeometry => 28usize,
        EWMHAtom::NetWmIcon => 29usize,
        EWMHAtom::NetWmPid => 30usize,
        EWMHAtom::NetWmHandledIcons => 31usize,
        EWMHAtom::NetWmUserTime => 32usize,
        EWMHAtom::NetFrameExtents => 33usize,
        EWMHAtom::NetWmPing => 34usize,
        EWMHAtom::NetWmSyncRequest => 35usize,
        EWMHAtom::NetWmWindowTypeDesktop => 36usize,
        EWMHAtom::NetWmWindowTypeDock => 37usize,
        EWMHAtom::NetWmWindowTypeToolbar => 38usize,
        EWMHAtom::NetWmWindowTypeMenu => 39usize,
        EWMHAtom::NetWmWindowTypeUtility => 40usize,
        EWMHAtom::NetWmWindowTypeSplash => 41usize,
        EWMHAtom::NetWmWindowTypeDialog => 42usize,
        EWMHAtom::NetWmWindowTypeNormal => 43usize,
        EWMHAtom::NetWmStateModal => 44usize,
        EWMHAtom::NetWmStateSticky => 45usize,
        EWMHAtom::NetWmStateMaximizedVert => 46usize,
        EWMHAtom::NetWmStateMaximizedHorz => 47usize,
        EWMHAtom::NetWmStateShaded => 48usize,
        EWMHAtom::NetWmStateSkipTaskbar => 49usize,
        EWMHAtom::NetWmStateSkipPager => 50usize,
        EWMHAtom::NetWmStateHidden => 51usize,
        EWMHAtom::NetWmStateFullscreen => 52usize,
        EWMHAtom::NetWmStateAbove => 53usize,
        EWMHAtom::NetWmStateBelow => 54usize,
        EWMHAtom::NetWmStateDemandsAttention => 55usize,
        EWMHAtom::NetWmActionMove => 56usize,
        EWMHAtom::NetWmActionResize => 57usize,
        EWMHAtom::NetWmActionMinimize => 58usize,
        EWMHAtom::NetWmActionShade => 59usize,
        EWMHAtom::NetWmActionStick => 60usize,
        EWMHAtom::NetWmActionMaximizeHorz => 61usize,
        EWMHAtom::NetWmActionMaximizeVert => 62usize,
        EWMHAtom::NetWmActionFullscreen => 63usize,
        EWMHAtom::NetWmActionChangeDesktop => 64usize,
        EWMHAtom::NetWmActionClose => 65usize,
    }
}

/// The EWMH atom at position `n`, if there is one.
pub open spec fn ewmh_at(n: usize) -> Option<EWMHAtom> {
    if n == 0 {
        Some(EWMHAtom::NetSupported)
    } else if n == 1 {
        Some(EWMHAtom::NetClientList)
    } else if n == 2 {
        Some(EWMHAtom::NetNumberOfDesktops)
    } else if n == 3 {
        Some(EWMHAtom::NetDesktopGeometry)
    } else if n == 4 {
        Some(EWMHAtom::NetDesktopViewport)
    } else if n == 5 {
        Some(EWMHAtom::NetCurrentDesktop)
    } else if n == 6 {
        Some(EWMHAtom::NetDesktopNames)
    } else if n == 7 {
        Some(EWMHAtom::NetActiveWindow)
    } else if n == 8 {
        Some(EWMHAtom::NetWorkarea)
    } else if n == 9 {
        Some(EWMHAtom::NetSupportingWmCheck)
    } else if n == 10 {
        Some(EWMHAtom::NetVirtualRoots)
    } else if n == 11 {
        Some(EWMHAtom::NetDesktopLayout)
    } else if n == 12 {
        Some(EWMHAtom::NetShowingDesktop)
    } else if n == 13 {
        Some(EWMHAtom::NetCloseWindow)
    } else if n == 14 {
        Some(EWMHAtom::NetMoveresizeWindow)
    } else if n == 15 {
        Some(EWMHAtom::NetWmMoveresize)
    } else if n == 16 {
        Some(EWMHAtom::NetRestackWindow)
    } else if n == 17 {
        Some(EWMHAtom::NetRequestFrameExtents)
    } else if n == 18 {
        Some(EWMHAtom::NetWmName)
    } else if n == 19 {
        Some(EWMHAtom::NetWmVisibleName)
    } else if n == 20 {
        Some(EWMHAtom::NetWmIconName)
    } else if n == 21 {
        Some(EWMHAtom::NetWmVisibleIconName)
    } else if n == 22 {
        Some(EWMHAtom::NetWmDesktop)
    } else if n == 23 {
        Some(EWMHAtom::NetWmWindowType)
    } else if n == 24 {
        Some(EWMHAtom::NetWmState)
    } else if n == 25 {
        Some(EWMHAtom::NetWmAllowedActions)
    } else if n == 26 {
        Some(EWMHAtom::NetWmStrut)
    } else if n == 27 {
        Some(EWMHAtom::NetWmStrutPartial)
    } else if n == 28 {
        Some(EWMHAtom::NetWmIconGeometry)
    } else if n == 29 {
        Some(EWMHAtom::NetWmIcon)
    } else if n == 30 {
        Some(EWMHAtom::NetWmPid)
    } else if n == 31 {
        Some(EWMHAtom::NetWmHandledIcons)
    } else if n == 32 {
        Some(EWMHAtom::NetWmUserTime)
    } else if n == 33 {
        Some(EWMHAtom::NetFrameExtents)
    } else if n == 34 {
        Some(EWMHAtom::NetWmPing)
    } else if n == 35 {
        Some(EWMHAtom::NetWmSyncRequest)
    } else if n == 36 {
        Some(EWMHAtom::NetWmWindowTypeDesktop)
    } else if n == 37 {
        Some(EWMHAtom::NetWmWindowTypeDock)
    } else if n == 38 {
        Some(EWMHAtom::NetWmWindowTypeToolbar)
    } else if n == 39 {
        Some(EWMHAtom::NetWmWindowTypeMenu)
    } else if n == 40 {
        Some(EWMHAtom::NetWmWindowTypeUtility)
    } else if n == 41 {
        Some(EWMHAtom::NetWmWindowTypeSplash)
    } else if n == 42 {
        Some(EWMHAtom::NetWmWindowTypeDialog)
    } else if n == 43 {
        Some(EWMHAtom::NetWmWindowTypeNormal)
    } else if n == 44 {
        Some(EWMHAtom::NetWmStateModal)
    } else if n == 45 {
        Some(EWMHAtom::NetWmStateSticky)
    } else if n == 46 {
        Some(EWMHAtom::NetWmStateMaximizedVert)
    } else if n == 47 {
        Some(EWMHAtom::NetWmStateMaximizedHorz)
    } else if n == 48 {
        Some(EWMHAtom::NetWmStateShaded)
    } else if n == 49 {
        Some(EWMHAtom::NetWmStateSkipTaskbar)
    } else if n == 50 {
        Some(EWMHAtom::NetWmStateSkipPager)
    } else if n == 51 {
        Some(EWMHAtom::NetWmStateHidden)
    } else if n == 52 {
        Some(EWMHAtom::NetWmStateFullscreen)
    } else if n == 53 {
        Some(EWMHAtom::NetWmStateAbove)
    } else if n == 54 {
        Some(EWMHAtom::NetWmStateBelow)
    } else if n == 55 {
        Some(EWMHAtom::NetWmStateDemandsAttention)
    } else if n == 56 {
        Some(EWMHAtom::NetWmActionMove)
    } else if n == 57 {
        Some(EWMHAtom::NetWmActionResize)
    } else if n == 58 {
        Some(EWMHAtom::NetWmActionMinimize)
    } else if n == 59 {
        Some(EWMHAtom::NetWmActionShade)
    } else if n == 60 {
        Some(EWMHAtom::NetWmActionStick)
    } else if n == 61 {
        Some(EWMHAtom::NetWmActionMaximizeHorz)
    } else if n == 62 {
        Some(EWMHAtom::NetWmActionMaximizeVert)
    } else if n == 63 {
        Some(EWMHAtom::NetWmActionFullscreen)
    } else if n == 64 {
        Some(EWMHAtom::NetWmActionChangeDesktop)
    } else if n == 65 {
        Some(EWMHAtom::NetWmActionClose)
    } else {
        None
    }
}

/// The name under which `atom` is interned.
pub open spec fn ewmh_name(atom: EWMHAtom) -> &'static str {
    match atom {
        EWMHAtom::NetSupported => "_NET_SUPPORTED",
        EWMHAtom::NetClientList => "_NET_CLIENT_LIST",
        EWMHAtom::NetNumberOfDesktops => "_NET_NUMBER_OF_DESKTOPS",
        EWMHAtom::NetDesktopGeometry => "_NET_DESKTOP_GEOMETRY",
        EWMHAtom::NetDesktopViewport => "_NET_DESKTOP_VIEWPORT",
        EWMHAtom::NetCurrentDesktop => "_NET_CURRENT_DESKTOP",
        EWMHAtom::NetDesktopNames => "_NET_DESKTOP_NAMES",
        EWMHAtom::NetActiveWindow => "_NET_ACTIVE_WINDOW",
        EWMHAtom::NetWorkarea => "_NET_WORKAREA",
        EWMHAtom::NetSupportingWmCheck => "_NET_SUPPORTING_WM_CHECK",
        EWMHAtom::NetVirtualRoots => "_NET_VIRTUAL_ROOTS",
        EWMHAtom::NetDesktopLayout => "_NET_DESKTOP_LAYOUT",
        EWMHAtom::NetShowingDesktop => "_NET_SHOWING_DESKTOP",
        EWMHAtom::NetCloseWindow => "_NET_CLOSE_WINDOW",
        EWMHAtom::NetMoveresizeWindow => "_NET_MOVERESIZE_WINDOW",
        EWMHAtom::NetWmMoveresize => "_NET_WM_MOVERESIZE",
        EWMHAtom::NetRestackWindow => "_NET_RESTACK_WINDOW",
        EWMHAtom::NetRequestFrameExtents => "_NET_REQUEST_FRAME_EXTENTS",
        EWMHAtom::NetWmName => "_NET_WM_NAME",
        EWMHAtom::NetWmVisibleName => "_NET_WM_VISIBLE_NAME",
        EWMHAtom::NetWmIconName => "_NET_WM_ICON_NAME",
        EWMHAtom::NetWmVisibleIconName => "_NET_WM_VISIBLE_ICON_NAME",
        EWMHAtom::NetWmDesktop => "_NET_WM_DESKTOP",
        EWMHAtom::NetWmWindowType => "_NET_WM_WINDOW_TYPE",
        EWMHAtom::NetWmState => "_NET_WM_STATE",
        EWMHAtom::NetWmAllowedActions => "_NET_WM_ALLOWED_ACTIONS",
        EWMHAtom::NetWmStrut => "_NET_WM_STRUT",
        EWMHAtom::NetWmStrutPartial => "_NET_WM_STRUT_PARTIAL",
        EWMHAtom::NetWmIconGeometry => "_NET_WM_ICON_GEOMETRY",
        EWMHAtom::NetWmIcon => "_NET_WM_ICON",
        EWMHAtom::NetWmPid => "_NET_WM_PID",
        EWMHAtom::NetWmHandledIcons => "_NET_WM_HANDLED_ICONS",
        EWMHAtom::NetWmUserTime => "_NET_WM_USER_TIME",
        EWMHAtom::NetFrameExtents => "_NET_FRAME_EXTENTS",
        EWMHAtom::NetWmPing => "_NET_WM_PING",
        EWMHAtom::NetWmSyncRequest => "_NET_WM_SYNC_REQUEST",
        EWMHAtom::NetWmWindowTypeDesktop => "_NET_WM_WINDOW_TYPE_DESKTOP",
        EWMHAtom::NetWmWindowTypeDock => "_NET_WM_WINDOW_TYPE_DOCK",
        EWMHAtom::NetWmWindowTypeToolbar => "_NET_WM_WINDOW_TYPE_TOOLBAR",
        EWMHAtom::NetWmWindowTypeMenu => "_NET_WM_WINDOW_TYPE_MENU",
        EWMHAtom::NetWmWindowTypeUtility => "_NET_WM_WINDOW_TYPE_UTILITY",
        EWMHAtom::NetWmWindowTypeSplash => "_NET_WM_WINDOW_TYPE_SPLASH",
        EWMHAtom::NetWmWindowTypeDialog => "_NET_WM_WINDOW_TYPE_DIALOG",
        EWMHAtom::NetWmWindowTypeNormal => "_NET_WM_WINDOW_TYPE_NORMAL",
        EWMHAtom::NetWmStateModal => "_NET_WM_STATE_MODAL",
        EWMHAtom::NetWmStateSticky => "_NET_WM_STATE_STICKY",
        EWMHAtom::NetWmStateMaximizedVert => "_NET_WM_STATE_MAXIMIZED_VERT",
        EWMHAtom::NetWmStateMaximizedHorz => "_NET_WM_STATE_MAXIMIZED_HORZ",
        EWMHAtom::NetWmStateShaded => "_NET_WM_STATE_SHADED",
        EWMHAtom::NetWmStateSkipTaskbar => "_NET_WM_STATE_SKIP_TASKBAR",
        EWMHAtom::NetWmStateSkipPager => "_NET_WM_STATE_SKIP_PAGER",
        EWMHAtom::NetWmStateHidden => "_NET_WM_STATE_HIDDEN",
        EWMHAtom::NetWmStateFullscreen => "_NET_WM_STATE_FULLSCREEN",
        EWMHAtom::NetWmStateAbove => "_NET_WM_STATE_ABOVE",
        EWMHAtom::NetWmStateBelow => "_NET_WM_STATE_BELOW",
        EWMHAtom::NetWmStateDemandsAttention => "_NET_WM_STATE_DEMANDS_ATTENTION",
        EWMHAtom::NetWmActionMove => "_NET_WM_ACTION_MOVE",
        EWMHAtom::NetWmActionResize => "_NET_WM_ACTION_RESIZE",
        EWMHAtom::NetWmActionMinimize => "_NET_WM_ACTION_MINIMIZE",
        EWMHAtom::NetWmActionShade => "_NET_WM_ACTION_SHADE",
        EWMHAtom::NetWmActionStick => "_NET_WM_ACTION_STICK",
        EWMHAtom::NetWmActionMaximizeHorz => "_NET_WM_ACTION_MAXIMIZE_HORZ",
        EWMHAtom::NetWmActionMaximizeVert => "_NET_WM_ACTION_MAXIMIZE_VERT",
        EWMHAtom::NetWmActionFullscreen => "_NET_WM_ACTION_FULLSCREEN",
        EWMHAtom::NetWmActionChangeDesktop => "_NET_WM_ACTION_CHANGE_DESKTOP",
        EWMHAtom::NetWmActionClose => "_NET_WM_ACTION_CLOSE",
    }
}

impl From<EWMHAtom> for usize {
    fn from(atom: EWMHAtom) -> (r: usize) {
        match atom {
            EWMHAtom::NetSupported => 0,
            EWMHAtom::NetClientList => 1,
            EWMHAtom::NetNumberOfDesktops => 2,
            EWMHAtom::NetDesktopGeometry => 3,
            EWMHAtom::NetDesktopViewport => 4,
            EWMHAtom::NetCurrentDesktop => 5,
            EWMHAtom::NetDesktopNames => 6,
            EWMHAtom::NetActiveWindow => 7,
            EWMHAtom::NetWorkarea => 8,
            EWMHAtom::NetSupportingWmCheck => 9,
            EWMHAtom::NetVirtualRoots => 10,
            EWMHAtom::NetDesktopLayout => 11,
            EWMHAtom::NetShowingDesktop => 12,
            EWMHAtom::NetCloseWindow => 13,
            EWMHAtom::NetMoveresizeWindow => 14,
            EWMHAtom::NetWmMoveresize => 15,
            EWMHAtom::NetRestackWindow => 16,
            EWMHAtom::NetRequestFrameExtents => 17,
            EWMHAtom::NetWmName => 18,
            EWMHAtom::NetWmVisibleName => 19,
            EWMHAtom::NetWmIconName => 20,
            EWMHAtom::NetWmVisibleIconName => 21,
            EWMHAtom::NetWmDesktop => 22,
            EWMHAtom::NetWmWindowType => 23,
            EWMHAtom::NetWmState => 24,
            EWMHAtom::NetWmAllowedActions => 25,
            EWMHAtom::NetWmStrut => 26,
            EWMHAtom::NetWmStrutPartial => 27,
            EWMHAtom::NetWmIconGeometry => 28,
            EWMHAtom::NetWmIcon => 29,
            EWMHAtom::NetWmPid => 30,
            EWMHAtom::NetWmHandledIcons => 31,
            EWMHAtom::NetWmUserTime => 32,
            EWMHAtom::NetFrameExtents => 33,
            EWMHAtom::NetWmPing => 34,
            EWMHAtom::NetWmSyncRequest => 35,
            EWMHAtom::NetWmWindowTypeDesktop => 36,
            EWMHAtom::NetWmWindowTypeDock => 37,
            EWMHAtom::NetWmWindowTypeToolbar => 38,
            EWMHAtom::NetWmWindowTypeMenu => 39,
            EWMHAtom::NetWmWindowTypeUtility => 40,
            EWMHAtom::NetWmWindowTypeSplash => 41,
            EWMHAtom::NetWmWindowTypeDialog => 42,
            EWMHAtom::NetWmWindowTypeNormal => 43,
            EWMHAtom::NetWmStateModal => 44,
            EWMHAtom::NetWmStateSticky => 45,
            EWMHAtom::NetWmStateMaximizedVert => 46,
            EWMHAtom::NetWmStateMaximizedHorz => 47,
            EWMHAtom::NetWmStateShaded => 48,
            EWMHAtom::NetWmStateSkipTaskbar => 49,
            EWMHAtom::NetWmStateSkipPager => 50,
            EWMHAtom::NetWmStateHidden => 51,
            EWMHAtom::NetWmStateFullscreen => 52,
            EWMHAtom::NetWmStateAbove => 53,
            EWMHAtom::NetWmStateBelow => 54,
            EWMHAtom::NetWmStateDemandsAttention => 55,
            EWMHAtom::NetWmActionMove => 56,
            EWMHAtom::NetWmActionResize => 57,
            EWMHAtom::NetWmActionMinimize => 58,
            EWMHAtom::NetWmActionShade => 59,
            EWMHAtom::NetWmActionStick => 60,
            EWMHAtom::NetWmActionMaximizeHorz => 61,
            EWMHAtom::NetWmActionMaximizeVert => 62,
            EWMHAtom::NetWmActionFullscreen => 63,
            EWMHAtom::NetWmActionChangeDesktop => 64,
            EWMHAtom::NetWmActionClose => 65,
        }
    }
}

impl vstd::std_specs::convert::FromSpecImpl<EWMHAtom> for usize {
    open spec fn obeys_from_spec() -> bool {
        true
    }

    open spec fn from_spec(v: EWMHAtom) -> usize {
        ewmh_index(v)
    }
}

impl From<EWMHAtom> for u8 {
    fn from(atom: EWMHAtom) -> (r: u8) {
        match atom {
            EWMHAtom::NetSupported => 0,
            EWMHAtom::NetClientList => 1,
            EWMHAtom::NetNumberOfDesktops => 2,
            EWMHAtom::NetDesktopGeometry => 3,
            EWMHAtom::NetDesktopViewport => 4,
            EWMHAtom::NetCurrentDesktop => 5,
            EWMHAtom::NetDesktopNames => 6,
            EWMHAtom::NetActiveWindow => 7,
            EWMHAtom::NetWorkarea => 8,
            EWMHAtom::NetSupportingWmCheck => 9,
            EWMHAtom::NetVirtualRoots => 10,
            EWMHAtom::NetDesktopLayout => 11,
            EWMHAtom::NetShowingDesktop => 12,
            EWMHAtom::NetCloseWindow => 13,
            EWMHAtom::NetMoveresizeWindow => 14,
            EWMHAtom::NetWmMoveresize => 15,
            EWMHAtom::NetRestackWindow => 16,
            EWMHAtom::NetRequestFrameExtents => 17,
            EWMHAtom::NetWmName => 18,
            EWMHAtom::NetWmVisibleName => 19,
            EWMHAtom::NetWmIconName => 20,
            EWMHAtom::NetWmVisibleIconName => 21,
            EWMHAtom::NetWmDesktop => 22,
            EWMHAtom::NetWmWindowType => 23,
            EWMHAtom::NetWmState => 24,
            EWMHAtom::NetWmAllowedActions => 25,
            EWMHAtom::NetWmStrut => 26,
            EWMHAtom::NetWmStrutPartial => 27,
            EWMHAtom::NetWmIconGeometry => 28,
            EWMHAtom::NetWmIcon => 29,
            EWMHAtom::NetWmPid => 30,
            EWMHAtom::NetWmHandledIcons => 31,
            EWMHAtom::NetWmUserTime => 32,
            EWMHAtom::NetFrameExtents => 33,
            EWMHAtom::NetWmPing => 34,
            EWMHAtom::NetWmSyncRequest => 35,
            EWMHAtom::NetWmWindowTypeDesktop => 36,
            EWMHAtom::NetWmWindowTypeDock => 37,
            EWMHAtom::NetWmWindowTypeToolbar => 38,
            EWMHAtom::NetWmWindowTypeMenu => 39,
            EWMHAtom::NetWmWindowTypeUtility => 40,
            EWMHAtom::NetWmWindowTypeSplash => 41,
            EWMHAtom::NetWmWindowTypeDialog => 42,
            EWMHAtom::NetWmWindowTypeNormal => 43,
            EWMHAtom::NetWmStateModal => 44,
            EWMHAtom::NetWmStateSticky => 45,
            EWMHAtom::NetWmStateMaximizedVert => 46,
            EWMHAtom::NetWmStateMaximizedHorz => 47,
            EWMHAtom::NetWmStateShaded => 48,
            EWMHAtom::NetWmStateSkipTaskbar => 49,
            EWMHAtom::NetWmStateSkipPager => 50,
            EWMHAtom::NetWmStateHidden => 51,
            EWMHAtom::NetWmStateFullscreen => 52,
            EWMHAtom::NetWmStateAbove => 53,
            EWMHAtom::NetWmStateBelow => 54,
            EWMHAtom::NetWmStateDemandsAttention => 55,
            EWMHAtom::NetWmActionMove => 56,
            EWMHAtom::NetWmActionResize => 57,
            EWMHAtom::NetWmActionMinimize => 58,
            EWMHAtom::NetWmActionShade => 59,
            EWMHAtom::NetWmActionStick => 60,
            EWMHAtom::NetWmActionMaximizeHorz => 61,
            EWMHAtom::NetWmActionMaximizeVert => 62,
            EWMHAtom::NetWmActionFullscreen => 63,
            EWMHAtom::NetWmActionChangeDesktop => 64,
            EWMHAtom::NetWmActionClose => 65,
        }
    }
}

impl vstd::std_specs::convert::FromSpecImpl<EWMHAtom> for u8 {
    open spec fn obeys_from_spec() -> bool {
        true
    }

    open spec fn from_spec(v: EWMHAtom) -> u8 {
        ewmh_index(v) as u8
    }
}

impl From<EWMHAtom> for &'static str {
    fn from(atom: EWMHAtom) -> (r: &'static str) {
        match atom {
            EWMHAtom::NetSupported => "_NET_SUPPORTED",
            EWMHAtom::NetClientList => "_NET_CLIENT_LIST",
            EWMHAtom::NetNumberOfDesktops => "_NET_NUMBER_OF_DESKTOPS",
            EWMHAtom::NetDesktopGeometry => "_NET_DESKTOP_GEOMETRY",
            EWMHAtom::NetDesktopViewport => "_NET_DESKTOP_VIEWPORT",
            EWMHAtom::NetCurrentDesktop => "_NET_CURRENT_DESKTOP",
            EWMHAtom::NetDesktopNames => "_NET_DESKTOP_NAMES",
            EWMHAtom::NetActiveWindow => "_NET_ACTIVE_WINDOW",
            EWMHAtom::NetWorkarea => "_NET_WORKAREA",
            EWMHAtom::NetSupportingWmCheck => "_NET_SUPPORTING_WM_CHECK",
            EWMHAtom::NetVirtualRoots => "_NET_VIRTUAL_ROOTS",
            EWMHAtom::NetDesktopLayout => "_NET_DESKTOP_LAYOUT",
            EWMHAtom::NetShowingDesktop => "_NET_SHOWING_DESKTOP",
            EWMHAtom::NetCloseWindow => "_NET_CLOSE_WINDOW",
            EWMHAtom::NetMoveresizeWindow => "_NET_MOVERESIZE_WINDOW",
            EWMHAtom::NetWmMoveresize => "_NET_WM_MOVERESIZE",
            EWMHAtom::NetRestackWindow => "_NET_RESTACK_WINDOW",
            EWMHAtom::NetRequestFrameExtents => "_NET_REQUEST_FRAME_EXTENTS",
            EWMHAtom::NetWmName => "_NET_WM_NAME",
            EWMHAtom::NetWmVisibleName => "_NET_WM_VISIBLE_NAME",
            EWMHAtom::NetWmIconName => "_NET_WM_ICON_NAME",
            EWMHAtom::NetWmVisibleIconName => "_NET_WM_VISIBLE_ICON_NAME",
            EWMHAtom::NetWmDesktop => "_NET_WM_DESKTOP",
            EWMHAtom::NetWmWindowType => "_NET_WM_WINDOW_TYPE",
            EWMHAtom::NetWmState => "_NET_WM_STATE",
            EWMHAtom::NetWmAllowedActions => "_NET_WM_ALLOWED_ACTIONS",
            EWMHAtom::NetWmStrut => "_NET_WM_STRUT",
            EWMHAtom::NetWmStrutPartial => "_NET_WM_STRUT_PARTIAL",
            EWMHAtom::NetWmIconGeometry => "_NET_WM_ICON_GEOMETRY",
            EWMHAtom::NetWmIcon => "_NET_WM_ICON",
            EWMHAtom::NetWmPid => "_NET_WM_PID",
            EWMHAtom::NetWmHandledIcons => "_NET_WM_HANDLED_ICONS",
            EWMHAtom::NetWmUserTime => "_NET_WM_USER_TIME",
            EWMHAtom::NetFrameExtents => "_NET_FRAME_EXTENTS",
            EWMHAtom::NetWmPing => "_NET_WM_PING",
            EWMHAtom::NetWmSyncRequest => "_NET_WM_SYNC_REQUEST",
            EWMHAtom::NetWmWindowTypeDesktop => "_NET_WM_WINDOW_TYPE_DESKTOP",
            EWMHAtom::NetWmWindowTypeDock => "_NET_WM_WINDOW_TYPE_DOCK",
            EWMHAtom::NetWmWindowTypeToolbar => "_NET_WM_WINDOW_TYPE_TOOLBAR",
            EWMHAtom::NetWmWindowTypeMenu => "_NET_WM_WINDOW_TYPE_MENU",
            EWMHAtom::NetWmWindowTypeUtility => "_NET_WM_WINDOW_TYPE_UTILITY",
            EWMHAtom::NetWmWindowTypeSplash => "_NET_WM_WINDOW_TYPE_SPLASH",
            EWMHAtom::NetWmWindowTypeDialog => "_NET_WM_WINDOW_TYPE_DIALOG",
            EWMHAtom::NetWmWindowTypeNormal => "_NET_WM_WINDOW_TYPE_NORMAL",
            EWMHAtom::NetWmStateModal => "_NET_WM_STATE_MODAL",
            EWMHAtom::NetWmStateSticky => "_NET_WM_STATE_STICKY",
            EWMHAtom::NetWmStateMaximizedVert => "_NET_WM_STATE_MAXIMIZED_VERT",
            EWMHAtom::NetWmStateMaximizedHorz => "_NET_WM_STATE_MAXIMIZED_HORZ",
            EWMHAtom::NetWmStateShaded => "_NET_WM_STATE_SHADED",
            EWMHAtom::NetWmStateSkipTaskbar => "_NET_WM_STATE_SKIP_TASKBAR",
            EWMHAtom::NetWmStateSkipPager => "_NET_WM_STATE_SKIP_PAGER",
            EWMHAtom::NetWmStateHidden => "_NET_WM_STATE_HIDDEN",
            EWMHAtom::NetWmStateFullscreen => "_NET_WM_STATE_FULLSCREEN",
            EWMHAtom::NetWmStateAbove => "_NET_WM_STATE_ABOVE",
            EWMHAtom::NetWmStateBelow => "_NET_WM_STATE_BELOW",
            EWMHAtom::NetWmStateDemandsAttention => "_NET_WM_STATE_DEMANDS_ATTENTION",
            EWMHAtom::NetWmActionMove => "_NET_WM_ACTION_MOVE",
            EWMHAtom::NetWmActionResize => "_NET_WM_ACTION_RESIZE",
            EWMHAtom::NetWmActionMinimize => "_NET_WM_ACTION_MINIMIZE",
            EWMHAtom::NetWmActionShade => "_NET_WM_ACTION_SHADE",
            EWMHAtom::NetWmActionStick => "_NET_WM_ACTION_STICK",
            EWMHAtom::NetWmActionMaximizeHorz => "_NET_WM_ACTION_MAXIMIZE_HORZ",
            EWMHAtom::NetWmActionMaximizeVert => "_NET_WM_ACTION_MAXIMIZE_VERT",
            EWMHAtom::NetWmActionFullscreen => "_NET_WM_ACTION_FULLSCREEN",
            EWMHAtom::NetWmActionChangeDesktop => "_NET_WM_ACTION_CHANGE_DESKTOP",
            EWMHAtom::NetWmActionClose => "_NET_WM_ACTION_CLOSE",
        }
    }
}

impl vstd::std_specs::convert::FromSpecImpl<EWMHAtom> for &'static str {
    open spec fn obeys_from_spec() -> bool {
        true
    }

    open spec fn from_spec(v: EWMHAtom) -> &'static str {
        ewmh_name(v)
    }
}

impl EWMHAtom {
    /// The atom at position `n`, if there is one.
    pub fn from_repr(n: usize) -> (r: Option<EWMHAtom>)
        ensures
            r == ewmh_at(n),
    {
        match n {
            0 => Some(EWMHAtom::NetSupported),
            1 => Some(EWMHAtom::NetClientList),
            2 => Some(EWMHAtom::NetNumberOfDesktops),
            3 => Some(EWMHAtom::NetDesktopGeometry),
            4 => Some(EWMHAtom::NetDesktopViewport),
            5 => Some(EWMHAtom::NetCurrentDesktop),
            6 => Some(EWMHAtom::NetDesktopNames),
            7 => Some(EWMHAtom::NetActiveWindow),
            8 => Some(EWMHAtom::NetWorkarea),
            9 => Some(EWMHAtom::NetSupportingWmCheck),
            10 => Some(EWMHAtom::NetVirtualRoots),
            11 => Some(EWMHAtom::NetDesktopLayout),
            12 => Some(EWMHAtom::NetShowingDesktop),
            13 => Some(EWMHAtom::NetCloseWindow),
            14 => Some(EWMHAtom::NetMoveresizeWindow),
            15 => Some(EWMHAtom::NetWmMoveresize),
            16 => Some(EWMHAtom::NetRestackWindow),
            17 => Some(EWMHAtom::NetRequestFrameExtents),
            18 => Some(EWMHAtom::NetWmName),
            19 => Some(EWMHAtom::NetWmVisibleName),
            20 => Some(EWMHAtom::NetWmIconName),
            21 => Some(EWMHAtom::NetWmVisibleIconName),
            22 => Some(EWMHAtom::NetWmDesktop),
            23 => Some(EWMHAtom::NetWmWindowType),
            24 => Some(EWMHAtom::NetWmState),
            25 => Some(EWMHAtom::NetWmAllowedActions),
            26 => Some(EWMHAtom::NetWmStrut),
            27 => Some(EWMHAtom::NetWmStrutPartial),
            28 => Some(EWMHAtom::NetWmIconGeometry),
            29 => Some(EWMHAtom::NetWmIcon),
            30 => Some(EWMHAtom::NetWmPid),
            31 => Some(EWMHAtom::NetWmHandledIcons),
            32 => Some(EWMHAtom::NetWmUserTime),
            33 => Some(EWMHAtom::NetFrameExtents),
            34 => Some(EWMHAtom::NetWmPing),
            35 => Some(EWMHAtom::NetWmSyncRequest),
            36 => Some(EWMHAtom::NetWmWindowTypeDesktop),
            37 => Some(EWMHAtom::NetWmWindowTypeDock),
            38 => Some(EWMHAtom::NetWmWindowTypeToolbar),
            39 => Some(EWMHAtom::NetWmWindowTypeMenu),
            40 => Some(EWMHAtom::NetWmWindowTypeUtility),
            41 => Some(EWMHAtom::NetWmWindowTypeSplash),
            42 => Some(EWMHAtom::NetWmWindowTypeDialog),
            43 => Some(EWMHAtom::NetWmWindowTypeNormal),
            44 => Some(EWMHAtom::NetWmStateModal),
            45 => Some(EWMHAtom::NetWmStateSticky),
            46 => Some(EWMHAtom::NetWmStateMaximizedVert),
            47 => Some(EWMHAtom::NetWmStateMaximizedHorz),
            48 => Some(EWMHAtom::NetWmStateShaded),
            49 => Some(EWMHAtom::NetWmStateSkipTaskbar),
            50 => Some(EWMHAtom::NetWmStateSkipPager),
            51 => Some(EWMHAtom::NetWmStateHidden),
            52 => Some(EWMHAtom::NetWmStateFullscreen),
            53 => Some(EWMHAtom::NetWmStateAbove),
            54 => Some(EWMHAtom::NetWmStateBelow),
            55 => Some(EWMHAtom::NetWmStateDemandsAttention),
            56 => Some(EWMHAtom::NetWmActionMove),
            57 => Some(EWMHAtom::NetWmActionResize),
            58 => Some(EWMHAtom::NetWmActionMinimize),
            59 => Some(EWMHAtom::NetWmActionShade),
            60 => Some(EWMHAtom::NetWmActionStick),
            61 => Some(EWMHAtom::NetWmActionMaximizeHorz),
            62 => Some(EWMHAtom::NetWmActionMaximizeVert),
            63 => Some(EWMHAtom::NetWmActionFullscreen),
            64 => Some(EWMHAtom::NetWmActionChangeDesktop),
            65 => Some(EWMHAtom::NetWmActionClose),
            _ => None,
        }
    }

    /// All EWMH atoms, in order.
    pub fn iter() -> (r: Vec<EWMHAtom>)
        ensures
            r@.len() == EWMH_ATOM_COUNT,
            forall|i: int| 0 <= i < EWMH_ATOM_COUNT ==> ewmh_index(#[trigger] r@[i]) == i,
    {
        let mut r: Vec<EWMHAtom> = Vec::new();
        r.push(EWMHAtom::NetSupported);
        r.push(EWMHAtom::NetClientList);
        r.push(EWMHAtom::NetNumberOfDesktops);
        r.push(EWMHAtom::NetDesktopGeometry);
        r.push(EWMHAtom::NetDesktopViewport);
        r.push(EWMHAtom::NetCurrentDesktop);
        r.push(EWMHAtom::NetDesktopNames);
        r.push(EWMHAtom::NetActiveWindow);
        r.push(EWMHAtom::NetWorkarea);
        r.push(EWMHAtom::NetSupportingWmCheck);
        r.push(EWMHAtom::NetVirtualRoots);
        r.push(EWMHAtom::NetDesktopLayout);
        r.push(EWMHAtom::NetShowingDesktop);
        r.push(EWMHAtom::NetCloseWindow);
        r.push(EWMHAtom::NetMoveresizeWindow);
        r.push(EWMHAtom::NetWmMoveresize);
        r.push(EWMHAtom::NetRestackWindow);
        r.push(EWMHAtom::NetRequestFrameExtents);
        r.push(EWMHAtom::NetWmName);
        r.push(EWMHAtom::NetWmVisibleName);
        r.push(EWMHAtom::NetWmIconName);
        r.push(EWMHAtom::NetWmVisibleIconName);
        r.push(EWMHAtom::NetWmDesktop);
        r.push(EWMHAtom::NetWmWindowType);
        r.push(EWMHAtom::NetWmState);
        r.push(EWMHAtom::NetWmAllowedActions);
        r.push(EWMHAtom::NetWmStrut);
        r.push(EWMHAtom::NetWmStrutPartial);
        r.push(EWMHAtom::NetWmIconGeometry);
        r.push(EWMHAtom::NetWmIcon);
        r.push(EWMHAtom::NetWmPid);
        r.push(EWMHAtom::NetWmHandledIcons);
        r.push(EWMHAtom::NetWmUserTime);
        r.push(EWMHAtom::NetFrameExtents);
        r.push(EWMHAtom::NetWmPing);
        r.push(EWMHAtom::NetWmSyncRequest);
        r.push(EWMHAtom::NetWmWindowTypeDesktop);
        r.push(EWMHAtom::NetWmWindowTypeDock);
        r.push(EWMHAtom::NetWmWindowTypeToolbar);
        r.push(EWMHAtom::NetWmWindowTypeMenu);
        r.push(EWMHAtom::NetWmWindowTypeUtility);
        r.push(EWMHAtom::NetWmWindowTypeSplash);
        r.push(EWMHAtom::NetWmWindowTypeDialog);
        r.push(EWMHAtom::NetWmWindowTypeNormal);
        r.push(EWMHAtom::NetWmStateModal);
        r.push(EWMHAtom::NetWmStateSticky);
        r.push(EWMHAtom::NetWmStateMaximizedVert);
        r.push(EWMHAtom::NetWmStateMaximizedHorz);
        r.push(EWMHAtom::NetWmStateShaded);
        r.push(EWMHAtom::NetWmStateSkipTaskbar);
        r.push(EWMHAtom::NetWmStateSkipPager);
        r.push(EWMHAtom::NetWmStateHidden);
        r.push(EWMHAtom::NetWmStateFullscreen);
        r.push(EWMHAtom::NetWmStateAbove);
        r.push(EWMHAtom::NetWmStateBelow);
        r.push(EWMHAtom::NetWmStateDemandsAttention);
        r.push(EWMHAtom::NetWmActionMove);
        r.push(EWMHAtom::NetWmActionResize);
        r.push(EWMHAtom::NetWmActionMinimize);
        r.push(EWMHAtom::NetWmActionShade);
        r.push(EWMHAtom::NetWmActionStick);
        r.push(EWMHAtom::NetWmActionMaximizeHorz);
        r.push(EWMHAtom::NetWmActionMaximizeVert);
        r.push(EWMHAtom::NetWmActionFullscreen);
        r.push(EWMHAtom::NetWmActionChangeDesktop);
        r.push(EWMHAtom::NetWmActionClose);
        r
    }
}

/// Each position names the atom whose index it is.
pub proof fn lemma_ewmh_index_round_trip(atom: EWMHAtom)
    ensures
        ewmh_index(atom) < EWMH_ATOM_COUNT,
        ewmh_at(ewmh_index(atom)) == Some(atom),
{
}

/// A position below the count names an atom of that index; none above.
pub proof fn lemma_ewmh_at_index(n: usize)
    ensures
        n < EWMH_ATOM_COUNT <==> ewmh_at(n) is Some,
        ewmh_at(n) matches Some(a) ==> ewmh_index(a) == n,
{
}

/// The interned values of the EWMH atoms, in the order of `EWMHAtom`.
#[derive(Debug, Clone)]
pub struct EWMHAtoms {
    inner: Vec<u64>,
}

impl View for EWMHAtoms {
    type V = Seq<u64>;

    closed spec fn view(&self) -> Seq<u64> {
        self.inner@
    }
}

/// The first position at which `s` holds `v`, if any.
pub open spec fn first_position(s: Seq<u64>, v: u64) -> Option<int> {
    if exists|i: int| 0 <= i < s.len() && s[i] == v {
        Some(choose|i: int| 0 <= i < s.len() && s[i] == v && forall|j: int| 0 <= j < i ==> s[j] != v)
    } else {
        None
    }
}

/// A value that occurs has a first position.
pub proof fn lemma_first_position(s: Seq<u64>, v: u64, i: int)
    requires
        0 <= i < s.len(),
        s[i] == v,
        forall|j: int| 0 <= j < i ==> s[j] != v,
    ensures
        first_position(s, v) == Some(i),
{
    let k = choose|k: int| 0 <= k < s.len() && s[k] == v && forall|j: int| 0 <= j < k ==> s[j] != v;
    assert(0 <= k < s.len() && s[k] == v && forall|j: int| 0 <= j < k ==> s[j] != v);
    if k < i {
        assert(s[k] != v);
    } else if i < k {
        assert(s[i] != v);
    }
}

impl EWMHAtoms {
    pub open spec fn wf(&self) -> bool {
        self@.len() == EWMH_ATOM_COUNT
    }

    /// The atoms, from the server's answer for each name in order: none if the server
    /// gave none (zero) for some name.
    pub fn from_interned(interned: Vec<u64>) -> (r: Option<Self>)
        requires
            interned@.len() == EWMH_ATOM_COUNT,
        ensures
            r is Some <==> forall|i: int| 0 <= i < interned@.len() ==> interned@[i] != 0,
            r matches Some(atoms) ==> atoms@ == interned@ && atoms.wf(),
    {
        let mut i: usize = 0;
        while i < interned.len()
            invariant
                i <= interned@.len(),
                forall|j: int| 0 <= j < i ==> interned@[j] != 0,
            decreases interned@.len() - i,
        {
            if interned[i] == 0 {
                return None;
            }
            i = i + 1;
        }
        Some(EWMHAtoms { inner: interned })
    }

    /// The interned value of `atom`.
    pub fn index(&self, atom: EWMHAtom) -> (r: u64)
        requires
            self.wf(),
        ensures
            r == self@[ewmh_index(atom) as int],
    {
        self.inner[usize::from(atom)]
    }

    /// The atom whose interned value is `atom` (the first one, should two share it).
    pub fn reverse_lookup(&self, atom: u64) -> (r: Option<EWMHAtom>)
        requires
            self.wf(),
        ensures
            r == match first_position(self@, atom) {
                Some(i) => ewmh_at(i as usize),
                None => None,
            },
    {
        let mut i: usize = 0;
        while i < self.inner.len()
            invariant
                i <= self@.len(),
                forall|j: int| 0 <= j < i ==> self@[j] != atom,
            decreases self@.len() - i,
        {
            if self.inner[i] == atom {
                proof {
                    lemma_first_position(self@, atom, i as int);
                }
                return EWMHAtom::from_repr(i);
            }
            i = i + 1;
        }
        None
    }

    /// The atoms announced in `_NET_SUPPORTED`, as the property's longs.
    pub fn supported_atoms(&self) -> (r: Vec<i64>)
        requires
            self.wf(),
        ensures
            r@ == seq![
                self@[ewmh_index(EWMHAtom::NetActiveWindow) as int] as i64,
                self@[ewmh_index(EWMHAtom::NetWmWindowType) as int] as i64,
                self@[ewmh_index(EWMHAtom::NetWmWindowTypeDialog) as int] as i64,
                self@[ewmh_index(EWMHAtom::NetWmState) as int] as i64,
                self@[ewmh_index(EWMHAtom::NetWmName) as int] as i64,
                self@[ewmh_index(EWMHAtom::NetClientList) as int] as i64,
                self@[ewmh_index(EWMHAtom::NetWmStateFullscreen) as int] as i64,
            ],
    {
        let mut r: Vec<i64> = Vec::new();
        r.push(self.index(EWMHAtom::NetActiveWindow) as i64);
        r.push(self.index(EWMHAtom::NetWmWindowType) as i64);
        r.push(self.index(EWMHAtom::NetWmWindowTypeDialog) as i64);
        r.push(self.index(EWMHAtom::NetWmState) as i64);
        r.push(self.index(EWMHAtom::NetWmName) as i64);
        r.push(self.index(EWMHAtom::NetClientList) as i64);
        r.push(self.index(EWMHAtom::NetWmStateFullscreen) as i64);
        proof {
            assert(r@ =~= seq![
                self@[ewmh_index(EWMHAtom::NetActiveWindow) as int] as i64,
                self@[ewmh_index(EWMHAtom::NetWmWindowType) as int] as i64,
                self@[ewmh_index(EWMHAtom::NetWmWindowTypeDialog) as int] as i64,
                self@[ewmh_index(EWMHAtom::NetWmState) as int] as i64,
                self@[ewmh_index(EWMHAtom::NetWmName) as int] as i64,
                self@[ewmh_index(EWMHAtom::NetClientList) as int] as i64,
                self@[ewmh_index(EWMHAtom::NetWmStateFullscreen) as int] as i64,
            ]);
        }
        r
    }
}

/// How a property change combines with the old value.
#[derive(Clone, Copy, PartialEq, Eq, Debug, Structural)]
pub enum PropMode {
    Replace,
    Append,
    Prepend,
}

/// The X protocol's number for `mode`.
pub open spec fn prop_mode_value(mode: PropMode) -> i32 {
    match mode {
        PropMode::Replace => 0,
        PropMode::Prepend => 1,
        PropMode::Append => 2,
    }
}

impl From<PropMode> for i32 {
    fn from(mode: PropMode) -> (r: i32) {
        match mode {
            PropMode::Replace => 0,
            PropMode::Append => 2,
            PropMode::Prepend => 1,
        }
    }
}

impl vstd::std_specs::convert::FromSpecImpl<PropMode> for i32 {
    open spec fn obeys_from_spec() -> bool {
        true
    }

    open spec fn from_spec(v: PropMode) -> i32 {
        prop_mode_value(v)
    }
}

// ---------------------------------------------------------------------------
// Window types.
// ---------------------------------------------------------------------------

/// The window type an EWMH window-type atom names.
pub open spec fn window_type_of(atom: EWMHAtom) -> Option<WindowType> {
    match atom {
        EWMHAtom::NetWmWindowTypeDesktop => Some(WindowType::Desktop),
        EWMHAtom::NetWmWindowTypeDock => Some(WindowType::Dock),
        EWMHAtom::NetWmWindowTypeUtility => Some(WindowType::Utility),
        EWMHAtom::NetWmWindowTypeMenu => Some(WindowType::Menu),
        EWMHAtom::NetWmWindowTypeToolbar => Some(WindowType::Toolbar),
        EWMHAtom::NetWmWindowTypeSplash => Some(WindowType::Splash),
        EWMHAtom::NetWmWindowTypeDialog => Some(WindowType::Dialog),
        EWMHAtom::NetWmWindowTypeNormal => Some(WindowType::Normal),
        _ => None,
    }
}

impl TryFrom<EWMHAtom> for WindowType {
    type Error = ();

    fn try_from(value: EWMHAtom) -> (r: Result<Self, ()>) {
        match value {
            EWMHAtom::NetWmWindowTypeDesktop => Ok(WindowType::Desktop),
            EWMHAtom::NetWmWindowTypeDock => Ok(WindowType::Dock),
            EWMHAtom::NetWmWindowTypeUtility => Ok(WindowType::Utility),
            EWMHAtom::NetWmWindowTypeMenu => Ok(WindowType::Menu),
            EWMHAtom::NetWmWindowTypeToolbar => Ok(WindowType::Toolbar),
            EWMHAtom::NetWmWindowTypeSplash => Ok(WindowType::Splash),
            EWMHAtom::NetWmWindowTypeDialog => Ok(WindowType::Dialog),
            EWMHAtom::NetWmWindowTypeNormal => Ok(WindowType::Normal),
            _ => Err(()),
        }
    }
}

impl vstd::std_specs::convert::TryFromSpecImpl<EWMHAtom> for WindowType {
    open spec fn obeys_try_from_spec() -> bool {
        true
    }

    open spec fn try_from_spec(v: EWMHAtom) -> Result<WindowType, ()> {
        match window_type_of(v) {
            Some(t) => Ok(t),
            None => Err(()),
        }
    }
}

/// The type of a window: the one its `_NET_WM_WINDOW_TYPE` atom names, if it names one;
/// else a dialog if the window is transient for another, a normal window if not.
pub open spec fn window_type_from(atoms: Seq<u64>, type_atom: Option<u64>, parent: Option<u64>) -> WindowType {
    let named = match type_atom {
        Some(a) => match first_position(atoms, a) {
            Some(i) => match ewmh_at(i as usize) {
                Some(e) => window_type_of(e),
                None => None,
            },
            None => None,
        },
        None => None,
    };
    match named {
        Some(t) => t,
        None => if parent is Some {
            WindowType::Dialog
        } else {
            WindowType::Normal
        },
    }
}

impl EWMHAtoms {
    /// The type of a window, from the atom its `_NET_WM_WINDOW_TYPE` property holds, if it
    /// could be read, and the window it is transient for, if any.
    pub fn get_window_type(&self, type_atom: Option<u64>, parent: Option<u64>) -> (r: WindowType)
        requires
            self.wf(),
        ensures
            r == window_type_from(self@, type_atom, parent),
    {
        let named = match type_atom {
            Some(a) => match self.reverse_lookup(a) {
                Some(e) => match WindowType::try_from(e) {
                    Ok(t) => Some(t),
                    Err(_) => None,
                },
                None => None,
            },
            None => None,
        };
        match named {
            Some(t) => t,
            None => match parent {
                Some(_) => WindowType::Dialog,
                None => WindowType::Normal,
            },
        }
    }
}
// ---------------------------------------------------------------------------
// Modifier masks.
// ---------------------------------------------------------------------------

/// The X modifier mask of a held-modifier set: Shift, Control, Mod1 for Alt and Mod4 for
/// Super (lock keys and AltGr are left out).
pub open spec fn x_modmask_of(bits: u32) -> u32 {
    (if holds(bits, ModifierKey::Shift) { SHIFT_MASK } else { 0u32 }) | (if holds(bits, ModifierKey::Control) {
        CONTROL_MASK
    } else {
        0u32
    }) | (if holds(bits, ModifierKey::Alt) { MOD1_MASK } else { 0u32 }) | (if holds(bits, ModifierKey::Super) {
        MOD4_MASK
    } else {
        0u32
    })
}

/// `m` is held according to the X modifier mask `mask`: Shift, Control, Mod1 (Alt), Mod3
/// (AltGr) and Mod4 (Super) are read; lock keys are not.
pub open spec fn modmask_holds(mask: u32, m: ModifierKey) -> bool {
    match m {
        ModifierKey::Shift => mask & SHIFT_MASK != 0,
        ModifierKey::Control => mask & CONTROL_MASK != 0,
        ModifierKey::Alt => mask & MOD1_MASK != 0,
        ModifierKey::AltGr => mask & MOD3_MASK != 0,
        ModifierKey::Super => mask & MOD4_MASK != 0,
        _ => false,
    }
}

/// The modifier bits an X modifier mask reports held.
pub open spec fn modmask_bits(mask: u32) -> u32 {
    (if mask & SHIFT_MASK != 0 { SHIFT_BIT } else { 0u32 }) | (if mask & CONTROL_MASK != 0 { CONTROL_BIT } else { 0u32 }) | (
    if mask & MOD1_MASK != 0 {
        ALT_BIT
    } else {
        0u32
    }) | (if mask & MOD3_MASK != 0 { ALT_GR_BIT } else { 0u32 }) | (if mask & MOD4_MASK != 0 { SUPER_BIT } else { 0u32 })
}

proof fn lemma_flag_values()
    ensures
        crate::backends::window_event::modifier_flag(ModifierKey::Shift) == 1u32 && SHIFT_BIT == 1u32,
        crate::backends::window_event::modifier_flag(ModifierKey::Control) == 256u32 && CONTROL_BIT == 256u32,
        crate::backends::window_event::modifier_flag(ModifierKey::Alt) == 4096u32 && ALT_BIT == 4096u32,
        crate::backends::window_event::modifier_flag(ModifierKey::AltGr) == 65536u32 && ALT_GR_BIT == 65536u32,
        crate::backends::window_event::modifier_flag(ModifierKey::Super) == 1048576u32 && SUPER_BIT == 1048576u32,
{
    assert(1u32 << 0u32 == 1u32) by (bit_vector);
    assert(1u32 << 8u32 == 256u32) by (bit_vector);
    assert(1u32 << 12u32 == 4096u32) by (bit_vector);
    assert(1u32 << 16u32 == 65536u32) by (bit_vector);
    assert(1u32 << 20u32 == 1048576u32) by (bit_vector);
}

proof fn lemma_set_flags(a: bool, b: bool, c: bool, d: bool, e: bool)
    by (bit_vector)
    ensures
        ({
            let x0 = 0u32;
            let x1 = if a { x0 | 1u32 } else { x0 & !1u32 };
            let x2 = if b { x1 | 256u32 } else { x1 & !256u32 };
            let x3 = if c { x2 | 4096u32 } else { x2 & !4096u32 };
            let x4 = if d { x3 | 65536u32 } else { x3 & !65536u32 };
            let x5 = if e { x4 | 1048576u32 } else { x4 & !1048576u32 };
            x5 == (if a { 1u32 } else { 0u32 }) | (if b { 256u32 } else { 0u32 }) | (if c { 4096u32 } else { 0u32 }) | (
            if d {
                65536u32
            } else {
                0u32
            }) | (if e { 1048576u32 } else { 0u32 })
        }),
{
}

impl ModifierState {
    /// The X modifier mask of the held modifiers.
    pub fn as_modmask(&self) -> (r: u32)
        ensures
            r == x_modmask_of(self.bits),
    {
        let shift: u32 = if self.is_held(ModifierKey::Shift) { SHIFT_MASK } else { 0 };
        let control: u32 = if self.is_held(ModifierKey::Control) { CONTROL_MASK } else { 0 };
        let alt: u32 = if self.is_held(ModifierKey::Alt) { MOD1_MASK } else { 0 };
        let super_key: u32 = if self.is_held(ModifierKey::Super) { MOD4_MASK } else { 0 };
        shift | control | alt | super_key
    }

    /// The modifiers an X modifier mask reports held.
    pub fn from_modmask(modmask: u32) -> (r: Self)
        ensures
            r.bits == modmask_bits(modmask),
            r.held() == Set::new(|m: ModifierKey| modmask_holds(modmask, m)),
    {
        let mut state = Self::empty();
        proof {
            assert forall|m: ModifierKey| !holds(0u32, m) by {
                assert(0u32 & crate::backends::window_event::modifier_flag(m) == 0u32) by (bit_vector);
            }
            assert(state.held() =~= Set::<ModifierKey>::empty());
        }
        state.set_mod(ModifierKey::Shift, (modmask & SHIFT_MASK) != 0);
        state.set_mod(ModifierKey::Control, (modmask & CONTROL_MASK) != 0);
        state.set_mod(ModifierKey::Alt, (modmask & MOD1_MASK) != 0);
        state.set_mod(ModifierKey::AltGr, (modmask & MOD3_MASK) != 0);
        state.set_mod(ModifierKey::Super, (modmask & MOD4_MASK) != 0);
        proof {
            assert(state.held() =~= Set::new(|m: ModifierKey| modmask_holds(modmask, m)));
            lemma_flag_values();
            lemma_set_flags(
                modmask & SHIFT_MASK != 0,
                modmask & CONTROL_MASK != 0,
                modmask & MOD1_MASK != 0,
                modmask & MOD3_MASK != 0,
                modmask & MOD4_MASK != 0,
            );
        }
        state
    }
}

/// An X modifier mask read into modifiers and written back keeps exactly its Shift,
/// Control, Mod1 and Mod4 bits.
pub proof fn lemma_modmask_round_trip(mask: u32, s: ModifierState)
    requires
        s.held() == Set::new(|m: ModifierKey| modmask_holds(mask, m)),
    ensures
        x_modmask_of(s.bits) == mask & (SHIFT_MASK | CONTROL_MASK | MOD1_MASK | MOD4_MASK),
{
    assert(s.held().contains(ModifierKey::Shift) == modmask_holds(mask, ModifierKey::Shift));
    assert(s.held().contains(ModifierKey::Control) == modmask_holds(mask, ModifierKey::Control));
    assert(s.held().contains(ModifierKey::Alt) == modmask_holds(mask, ModifierKey::Alt));
    assert(s.held().contains(ModifierKey::Super) == modmask_holds(mask, ModifierKey::Super));
    let a = mask & 1u32 != 0;
    let b = mask & 4u32 != 0;
    let c = mask & 8u32 != 0;
    let d = mask & 64u32 != 0;
    assert(((if a { 1u32 } else { 0u32 }) | (if b { 4u32 } else { 0u32 }) | (if c { 8u32 } else { 0u32 }) | (if d {
        64u32
    } else {
        0u32
    })) == mask & (1u32 | 4u32 | 8u32 | 64u32)) by (bit_vector)
        requires
            a == (mask & 1u32 != 0),
            b == (mask & 4u32 != 0),
            c == (mask & 8u32 != 0),
            d == (mask & 64u32 != 0),
    ;
}

/// The `j`-th key of modifier `i` in a modifier map with `per_modifier` keys per modifier.
pub open spec fn modmap_key(modmap: Seq<u8>, per_modifier: int, i: int, j: int) -> u8 {
    modmap[i * per_modifier + j]
}

/// The X mask bit of the first of the eight modifiers whose keys (`per_modifier` of them
/// each, in `modmap`) include `numlock`, looking from modifier `i` on.
pub open spec fn numlock_mask_from(modmap: Seq<u8>, per_modifier: int, numlock: u8, i: int) -> Option<u32>
    decreases 8 - i,
{
    if i < 0 || i >= 8 {
        None
    } else if exists|j: int| 0 <= j < per_modifier && #[trigger] modmap_key(modmap, per_modifier, i, j) == numlock {
        Some(1u32 << (i as u32))
    } else {
        numlock_mask_from(modmap, per_modifier, numlock, i + 1)
    }
}

/// The X mask bit of the modifier that Num Lock is bound to, from the server's modifier
/// map (eight rows of `per_modifier` keycodes): none if no modifier has that key.
pub fn numlock_mask(modmap: &Vec<u8>, per_modifier: usize, numlock: u8) -> (r: Option<u32>)
    requires
        8 * per_modifier <= modmap@.len(),
    ensures
        r == numlock_mask_from(modmap@, per_modifier as int, numlock, 0),
{
    let len = modmap.len();
    let mut i: usize = 0;
    while i < 8
        invariant
            i <= 8,
            len == modmap@.len(),
            8 * per_modifier <= modmap@.len(),
            numlock_mask_from(modmap@, per_modifier as int, numlock, 0) == numlock_mask_from(
                modmap@,
                per_modifier as int,
                numlock,
                i as int,
            ),
        decreases 8 - i,
    {
        let mut j: usize = 0;
        while j < per_modifier
            invariant
                i < 8,
                j <= per_modifier,
                len == modmap@.len(),
                8 * per_modifier <= modmap@.len(),
                numlock_mask_from(modmap@, per_modifier as int, numlock, 0) == numlock_mask_from(
                    modmap@,
                    per_modifier as int,
                    numlock,
                    i as int,
                ),
                forall|k: int| 0 <= k < j ==> #[trigger] modmap_key(modmap@, per_modifier as int, i as int, k) != numlock,
            decreases per_modifier - j,
        {
            proof {
                assert(i * per_modifier + j < 8 * per_modifier) by (nonlinear_arith)
                    requires
                        i < 8,
                        j < per_modifier,
                ;
            }
            if modmap[i * per_modifier + j] == numlock {
                proof {
                    assert(modmap_key(modmap@, per_modifier as int, i as int, j as int) == numlock);
                }
                return Some(1u32 << (i as u32));
            }
            j = j + 1;
        }
        i = i + 1;
    }
    None
}

/// The modifier masks a binding is grabbed under, so that it works with Caps Lock and
/// Num Lock on or off: the binding's own mask with none, Lock, Num Lock, and both.
pub fn grab_masks(modmask: u32, numlock_mask: u32) -> (r: Vec<u32>)
    ensures
        r@ == seq![modmask | 0u32, modmask | LOCK_MASK, modmask | numlock_mask, modmask | (LOCK_MASK | numlock_mask)],
{
    let modifiers: [u32; 4] = [0, LOCK_MASK, numlock_mask, LOCK_MASK | numlock_mask];
    let mut r: Vec<u32> = Vec::new();
    let mut i: usize = 0;
    while i < 4
        invariant
            i <= 4,
            modifiers@ == seq![0u32, LOCK_MASK, numlock_mask, LOCK_MASK | numlock_mask],
            r@ == modifiers@.subrange(0, i as int).map_values(|m: u32| modmask | m),
        decreases 4 - i,
    {
        r.push(modmask | modifiers[i]);
        proof {
            assert(r@ =~= modifiers@.subrange(0, i + 1).map_values(|m: u32| modmask | m));
        }
        i = i + 1;
    }
    proof {
        assert(modifiers@.subrange(0, 4) =~= modifiers@);
        assert(r@ =~= seq![modmask | 0u32, modmask | LOCK_MASK, modmask | numlock_mask, modmask | (LOCK_MASK | numlock_mask)]);
    }
    r
}

/// The modifier bits that matter when two key masks are compared: every modifier but the
/// lock keys (Caps Lock and the Num Lock modifier).
pub open spec fn clean_mask_of(numlock_mask: u32) -> u32 {
    !(numlock_mask | LOCK_MASK) & (SHIFT_MASK | CONTROL_MASK | MOD1_MASK | MOD2_MASK | MOD3_MASK | MOD4_MASK | MOD5_MASK)
}

// ---------------------------------------------------------------------------
// Window geometry requests.
// ---------------------------------------------------------------------------

/// The values and the value mask of an X window configuration request.
#[derive(Debug, Clone, Copy, PartialEq, Eq, Structural)]
pub struct WindowChanges {
    pub x: i32,
    pub y: i32,
    pub width: i32,
    pub height: i32,
    pub border_width: i32,
    pub mask: u32,
}

/// The request that moves a window to `new_pos`, resizes it to `new_size` (ignored unless
/// both sides exceed one pixel) and sets its border to `new_border`, each where given.
pub fn window_changes(new_size: Option<Size>, new_pos: Option<Point>, new_border: Option<i32>) -> (r: WindowChanges)
    ensures
        r.x == (match new_pos { Some(p) => p.x, None => 0 }),
        r.y == (match new_pos { Some(p) => p.y, None => 0 }),
        r.width == (match new_size { Some(s) => s.width, None => 0 }),
        r.height == (match new_size { Some(s) => s.height, None => 0 }),
        r.border_width == (match new_border { Some(b) => b, None => 0 }),
        r.mask == ((if new_pos is Some { CW_X | CW_Y } else { 0u32 }) | (if new_size matches Some(s) && s.width > 1
            && s.height > 1 {
            CW_WIDTH | CW_HEIGHT
        } else {
            0u32
        }) | (if new_border is Some { CW_BORDER_WIDTH } else { 0u32 })),
{
    let position = match new_pos {
        Some(p) => p,
        None => Point::zero(),
    };
    let size = match new_size {
        Some(s) => s,
        None => Size::zero(),
    };
    let border_width = match new_border {
        Some(b) => b,
        None => 0,
    };
    let mut mask: u32 = 0;
    if new_pos.is_some() {
        mask = mask | (CW_X | CW_Y);
    }
    let size_mask: u32 = if new_size.is_some() && size.width > 1 && size.height > 1 { CW_WIDTH | CW_HEIGHT } else { 0 };
    mask = mask | size_mask;
    let border_mask: u32 = if new_border.is_some() { CW_BORDER_WIDTH } else { 0 };
    mask = mask | border_mask;
    proof {
        let p: u32 = if new_pos is Some { CW_X | CW_Y } else { 0u32 };
        assert((0u32 | p) == p) by (bit_vector);
    }
    WindowChanges { x: position.x, y: position.y, width: size.width, height: size.height, border_width, mask }
}

/// Where a window is put to hide it: 100 pixels past the bottom right corner of the
/// screen.
pub fn hidden_position(screen: Size) -> (r: Point)
    requires
        screen.width + 100 <= i32::MAX,
        screen.height + 100 <= i32::MAX,
    ensures
        r.x == screen.width + 100,
        r.y == screen.height + 100,
{
    Point::from_size(screen.add(Size::new(100, 100)))
}

// ---------------------------------------------------------------------------
// Keys and buttons.
// ---------------------------------------------------------------------------

/// The X keysym of a key (letters by their lower-case keysym).
pub open spec fn keysym_of(key: VirtualKeyCode) -> u32 {
    match key {
        VirtualKeyCode::Zero => 0x30,
        VirtualKeyCode::One => 0x31,
        VirtualKeyCode::Two => 0x32,
        VirtualKeyCode::Three => 0x33,
        VirtualKeyCode::Four => 0x34,
        VirtualKeyCode::Five => 0x35,
        VirtualKeyCode::Six => 0x36,
        VirtualKeyCode::Seven => 0x37,
        VirtualKeyCode::Eight => 0x38,
        VirtualKeyCode::Nine => 0x39,
        VirtualKeyCode::A => 0x61,
        VirtualKeyCode::B => 0x62,
        VirtualKeyCode::C => 0x63,
        VirtualKeyCode::D => 0x64,
        VirtualKeyCode::E => 0x65,
        VirtualKeyCode::F => 0x66,
        VirtualKeyCode::G => 0x67,
        VirtualKeyCode::H => 0x68,
        VirtualKeyCode::I => 0x69,
        VirtualKeyCode::J => 0x6a,
        VirtualKeyCode::K => 0x6b,
        VirtualKeyCode::L => 0x6c,
        VirtualKeyCode::M => 0x6d,
        VirtualKeyCode::N => 0x6e,
        VirtualKeyCode::O => 0x6f,
        VirtualKeyCode::P => 0x70,
        VirtualKeyCode::Q => 0x71,
        VirtualKeyCode::R => 0x72,
        VirtualKeyCode::S => 0x73,
        VirtualKeyCode::T => 0x74,
        VirtualKeyCode::U => 0x75,
        VirtualKeyCode::V => 0x76,
        VirtualKeyCode::W => 0x77,
        VirtualKeyCode::X => 0x78,
        VirtualKeyCode::Y => 0x79,
        VirtualKeyCode::Z => 0x7a,
        VirtualKeyCode::Escape => 0xff1b,
        VirtualKeyCode::Print => 0xff61,
        VirtualKeyCode::Back => 0xff08,
        VirtualKeyCode::Delete => 0xffff,
        VirtualKeyCode::Tab => 0xff09,
        VirtualKeyCode::Return => 0xff0d,
        VirtualKeyCode::Space => 0x20,
        VirtualKeyCode::Left => 0xff51,
        VirtualKeyCode::Up => 0xff52,
        VirtualKeyCode::Right => 0xff53,
        VirtualKeyCode::Down => 0xff54,
    }
}

/// The key an X keysym stands for, if the window manager knows it; a letter's upper- and
/// lower-case keysyms both give the letter.
pub open spec fn key_of_keysym(keysym: u32) -> Option<VirtualKeyCode> {
    if 0x30 <= keysym <= 0x39 || 0x41 <= keysym <= 0x5a || 0x61 <= keysym <= 0x7a {
        let k: u32 = if 0x41 <= keysym <= 0x5a { (keysym + 0x20) as u32 } else { keysym };
        choose_key(k)
    } else if keysym == 0xff1b {
        Some(VirtualKeyCode::Escape)
    } else if keysym == 0xff61 {
        Some(VirtualKeyCode::Print)
    } else if keysym == 0xff08 {
        Some(VirtualKeyCode::Back)
    } else if keysym == 0xffff {
        Some(VirtualKeyCode::Delete)
    } else if keysym == 0xff09 {
        Some(VirtualKeyCode::Tab)
    } else if keysym == 0xff0d {
        Some(VirtualKeyCode::Return)
    } else if keysym == 0x20 {
        Some(VirtualKeyCode::Space)
    } else if keysym == 0xff51 {
        Some(VirtualKeyCode::Left)
    } else if keysym == 0xff52 {
        Some(VirtualKeyCode::Up)
    } else if keysym == 0xff53 {
        Some(VirtualKeyCode::Right)
    } else if keysym == 0xff54 {
        Some(VirtualKeyCode::Down)
    } else {
        None
    }
}

/// The digit or letter key whose keysym is `k`.
pub open spec fn choose_key(k: u32) -> Option<VirtualKeyCode> {
    if exists|v: VirtualKeyCode| keysym_of(v) == k {
        Some(choose|v: VirtualKeyCode| keysym_of(v) == k)
    } else {
        None
    }
}

/// Different keys have different keysyms.
pub proof fn lemma_keysym_injective(a: VirtualKeyCode, b: VirtualKeyCode)
    ensures
        keysym_of(a) == keysym_of(b) ==> a == b,
{
}

/// The key of a key's keysym is that key.
pub proof fn lemma_keysym_round_trip(key: VirtualKeyCode)
    ensures
        key_of_keysym(keysym_of(key)) == Some(key),
{
    let k = keysym_of(key);
    if 0x30 <= k <= 0x39 || 0x61 <= k <= 0x7a {
        assert(exists|v: VirtualKeyCode| keysym_of(v) == k);
        let c = choose|v: VirtualKeyCode| keysym_of(v) == k;
        lemma_keysym_injective(c, key);
    }
}

/// The X keysym of `key`.
pub fn virtual_keycode_to_keysym(key: VirtualKeyCode) -> (r: u32)
    ensures
        r == keysym_of(key),
{
    match key {
        VirtualKeyCode::Zero => 0x30,
        VirtualKeyCode::One => 0x31,
        VirtualKeyCode::Two => 0x32,
        VirtualKeyCode::Three => 0x33,
        VirtualKeyCode::Four => 0x34,
        VirtualKeyCode::Five => 0x35,
        VirtualKeyCode::Six => 0x36,
        VirtualKeyCode::Seven => 0x37,
        VirtualKeyCode::Eight => 0x38,
        VirtualKeyCode::Nine => 0x39,
        VirtualKeyCode::A => 0x61,
        VirtualKeyCode::B => 0x62,
        VirtualKeyCode::C => 0x63,
        VirtualKeyCode::D => 0x64,
        VirtualKeyCode::E => 0x65,
        VirtualKeyCode::F => 0x66,
        VirtualKeyCode::G => 0x67,
        VirtualKeyCode::H => 0x68,
        VirtualKeyCode::I => 0x69,
        VirtualKeyCode::J => 0x6a,
        VirtualKeyCode::K => 0x6b,
        VirtualKeyCode::L => 0x6c,
        VirtualKeyCode::M => 0x6d,
        VirtualKeyCode::N => 0x6e,
        VirtualKeyCode::O => 0x6f,
        VirtualKeyCode::P => 0x70,
        VirtualKeyCode::Q => 0x71,
        VirtualKeyCode::R => 0x72,
        VirtualKeyCode::S => 0x73,
        VirtualKeyCode::T => 0x74,
        VirtualKeyCode::U => 0x75,
        VirtualKeyCode::V => 0x76,
        VirtualKeyCode::W => 0x77,
        VirtualKeyCode::X => 0x78,
        VirtualKeyCode::Y => 0x79,
        VirtualKeyCode::Z => 0x7a,
        VirtualKeyCode::Escape => 0xff1b,
        VirtualKeyCode::Print => 0xff61,
        VirtualKeyCode::Back => 0xff08,
        VirtualKeyCode::Delete => 0xffff,
        VirtualKeyCode::Tab => 0xff09,
        VirtualKeyCode::Return => 0xff0d,
        VirtualKeyCode::Space => 0x20,
        VirtualKeyCode::Left => 0xff51,
        VirtualKeyCode::Up => 0xff52,
        VirtualKeyCode::Right => 0xff53,
        VirtualKeyCode::Down => 0xff54,
    }
}

/// The key an X keysym stands for, if the window manager knows it.
pub fn keysym_to_virtual_keycode(keysym: u32) -> (r: Option<VirtualKeyCode>)
    ensures
        r == key_of_keysym(keysym),
{
    let k: u32 = if 0x41 <= keysym && keysym <= 0x5a { keysym + 0x20 } else { keysym };
    let r = match k {
        0x30 => Some(VirtualKeyCode::Zero),
        0x31 => Some(VirtualKeyCode::One),
        0x32 => Some(VirtualKeyCode::Two),
        0x33 => Some(VirtualKeyCode::Three),
        0x34 => Some(VirtualKeyCode::Four),
        0x35 => Some(VirtualKeyCode::Five),
        0x36 => Some(VirtualKeyCode::Six),
        0x37 => Some(VirtualKeyCode::Seven),
        0x38 => Some(VirtualKeyCode::Eight),
        0x39 => Some(VirtualKeyCode::Nine),
        0x61 => Some(VirtualKeyCode::A),
        0x62 => Some(VirtualKeyCode::B),
        0x63 => Some(VirtualKeyCode::C),
        0x64 => Some(VirtualKeyCode::D),
        0x65 => Some(VirtualKeyCode::E),
        0x66 => Some(VirtualKeyCode::F),
        0x67 => Some(VirtualKeyCode::G),
        0x68 => Some(VirtualKeyCode::H),
        0x69 => Some(VirtualKeyCode::I),
        0x6a => Some(VirtualKeyCode::J),
        0x6b => Some(VirtualKeyCode::K),
        0x6c => Some(VirtualKeyCode::L),
        0x6d => Some(VirtualKeyCode::M),
        0x6e => Some(VirtualKeyCode::N),
        0x6f => Some(VirtualKeyCode::O),
        0x70 => Some(VirtualKeyCode::P),
        0x71 => Some(VirtualKeyCode::Q),
        0x72 => Some(VirtualKeyCode::R),
        0x73 => Some(VirtualKeyCode::S),
        0x74 => Some(VirtualKeyCode::T),
        0x75 => Some(VirtualKeyCode::U),
        0x76 => Some(VirtualKeyCode::V),
        0x77 => Some(VirtualKeyCode::W),
        0x78 => Some(VirtualKeyCode::X),
        0x79 => Some(VirtualKeyCode::Y),
        0x7a => Some(VirtualKeyCode::Z),
        0xff1b => Some(VirtualKeyCode::Escape),
        0xff61 => Some(VirtualKeyCode::Print),
        0xff08 => Some(VirtualKeyCode::Back),
        0xffff => Some(VirtualKeyCode::Delete),
        0xff09 => Some(VirtualKeyCode::Tab),
        0xff0d => Some(VirtualKeyCode::Return),
        0x20 => Some(VirtualKeyCode::Space),
        0xff51 => Some(VirtualKeyCode::Left),
        0xff52 => Some(VirtualKeyCode::Up),
        0xff53 => Some(VirtualKeyCode::Right),
        0xff54 => Some(VirtualKeyCode::Down),
        _ => None,
    };
    proof {
        if 0x30 <= keysym <= 0x39 || 0x41 <= keysym <= 0x5a || 0x61 <= keysym <= 0x7a {
            let v = r.unwrap();
            assert(keysym_of(v) == k);
            let c = choose|c: VirtualKeyCode| keysym_of(c) == k;
            lemma_keysym_injective(c, v);
        }
    }
    r
}

/// The X button number of a pointer button.
pub open spec fn xbutton_of(button: MouseButton) -> u32 {
    match button {
        MouseButton::Left => 1,
        MouseButton::Middle => 2,
        MouseButton::Right => 3,
        MouseButton::ScrollUp => 4,
        MouseButton::ScrollDown => 5,
        MouseButton::ScrollLeft => 6,
        MouseButton::ScrollRight => 7,
        MouseButton::Backwards => 8,
        MouseButton::Forwards => 9,
    }
}

/// The pointer button with X button number `n`, if there is one.
pub open spec fn button_of_xbutton(n: u32) -> Option<MouseButton> {
    if n == 1 {
        Some(MouseButton::Left)
    } else if n == 2 {
        Some(MouseButton::Middle)
    } else if n == 3 {
        Some(MouseButton::Right)
    } else if n == 4 {
        Some(MouseButton::ScrollUp)
    } else if n == 5 {
        Some(MouseButton::ScrollDown)
    } else if n == 6 {
        Some(MouseButton::ScrollLeft)
    } else if n == 7 {
        Some(MouseButton::ScrollRight)
    } else if n == 8 {
        Some(MouseButton::Backwards)
    } else if n == 9 {
        Some(MouseButton::Forwards)
    } else {
        None
    }
}

/// A button's number gives the button back, and only numbers one to nine name buttons.
pub proof fn lemma_xbutton_round_trip(button: MouseButton, n: u32)
    ensures
        button_of_xbutton(xbutton_of(button)) == Some(button),
        button_of_xbutton(n) is Some <==> 1 <= n <= 9,
        button_of_xbutton(n) matches Some(b) ==> xbutton_of(b) == n,
{
}

/// The X button number of `button`.
pub fn mouse_button_to_xbutton(button: MouseButton) -> (r: i32)
    ensures
        r == xbutton_of(button),
{
    match button {
        MouseButton::Left => 1,
        MouseButton::Middle => 2,
        MouseButton::Right => 3,
        MouseButton::ScrollUp => 4,
        MouseButton::ScrollDown => 5,
        MouseButton::ScrollLeft => 6,
        MouseButton::ScrollRight => 7,
        MouseButton::Backwards => 8,
        MouseButton::Forwards => 9,
    }
}

/// The pointer button of an X button event's button number.
pub fn xev_to_mouse_button(button: u32) -> (r: Option<MouseButton>)
    ensures
        r == button_of_xbutton(button),
{
    match button {
        1 => Some(MouseButton::Left),
        2 => Some(MouseButton::Middle),
        3 => Some(MouseButton::Right),
        4 => Some(MouseButton::ScrollUp),
        5 => Some(MouseButton::ScrollDown),
        6 => Some(MouseButton::ScrollLeft),
        7 => Some(MouseButton::ScrollRight),
        8 => Some(MouseButton::Backwards),
        9 => Some(MouseButton::Forwards),
        _ => None,
    }
}

// ---------------------------------------------------------------------------
// Events.
// ---------------------------------------------------------------------------

/// What the window manager reads of an X event, by kind.
#[derive(Debug, Clone, Copy, PartialEq, Eq, Structural)]
pub enum XEventFields {
    MapRequest { window: u64 },
    UnmapNotify { window: u64 },
    ConfigureRequest { window: u64, x: i32, y: i32, width: i32, height: i32 },
    EnterNotify { window: u64 },
    DestroyNotify { window: u64 },
    MotionNotify { window: u64, x: i32, y: i32 },
    /// A button press (`pressed`) or release.
    Button { pressed: bool, subwindow: u64, button: u32, x: i32, y: i32, state: u32 },
    /// A key press (`pressed`) or release, with the keysym of the key.
    Key { pressed: bool, subwindow: u64, keysym: u32, state: u32 },
    PropertyNotify { window: u64, atom: u64 },
    /// A client message with its first three longs.
    ClientMessage { window: u64, message_type: u64, data0: i64, data1: i64, data2: i64 },
    Other,
}

/// What an X event comes to: an event of the window manager, or a property change whose
/// event needs the window's name or type read first.
#[derive(Debug, Clone)]
pub enum EventDecision {
    Event(WindowEvent<u64>),
    /// The window's name changed; read it to make the event.
    ReadName(u64),
    /// The window's type changed; read it to make the event.
    ReadType(u64),
}

/// The event an X event comes to, given the interned ICCCM and EWMH atoms.
pub open spec fn decision_of(icccm: Seq<u64>, ewmh: Seq<u64>, ev: XEventFields) -> Option<EventDecision> {
    match ev {
        XEventFields::MapRequest { window } => Some(EventDecision::Event(WindowEvent::MapRequestEvent(MapEvent { window }))),
        XEventFields::UnmapNotify { window } => Some(EventDecision::Event(WindowEvent::UnmapEvent(UnmapEvent { window }))),
        XEventFields::ConfigureRequest { window, x, y, width, height } => Some(
            EventDecision::Event(
                WindowEvent::ConfigureEvent(
                    ConfigureEvent { window, position: Point { x, y }, size: Size { width, height } },
                ),
            ),
        ),
        XEventFields::EnterNotify { window } => Some(EventDecision::Event(WindowEvent::EnterEvent(EnterEvent { window }))),
        XEventFields::DestroyNotify { window } => Some(
            EventDecision::Event(WindowEvent::DestroyEvent(DestroyEvent { window })),
        ),
        XEventFields::MotionNotify { window, x, y } => Some(
            EventDecision::Event(WindowEvent::MotionEvent(MotionEvent { position: Point { x, y }, window })),
        ),
        XEventFields::Button { pressed, subwindow, button, x, y, state } => Some(
            EventDecision::Event(
                WindowEvent::ButtonEvent(
                    ButtonEvent {
                        window: subwindow,
                        state: if pressed { KeyState::Pressed } else { KeyState::Released },
                        keycode: button_of_xbutton(button).unwrap(),
                        cursor_position: Point { x, y },
                        modifierstate: ModifierState { bits: modmask_bits(state) },
                    },
                ),
            ),
        ),
        XEventFields::Key { pressed, subwindow, keysym, state } => match key_of_keysym(keysym) {
            Some(key) => Some(
                EventDecision::Event(
                    WindowEvent::KeyEvent(
                        KeyEvent {
                            window: subwindow,
                            state: if pressed { KeyState::Pressed } else { KeyState::Released },
                            keycode: key,
                            modifierstate: ModifierState { bits: modmask_bits(state) },
                        },
                    ),
                ),
            ),
            None => None,
        },
        XEventFields::PropertyNotify { window, atom } => if atom == ewmh[ewmh_index(EWMHAtom::NetWmName) as int] || atom
            == icccm[icccm_index(ICCCMAtom::WmName) as int] {
            Some(EventDecision::ReadName(window))
        } else if atom == ewmh[ewmh_index(EWMHAtom::NetWmWindowType) as int] {
            Some(EventDecision::ReadType(window))
        } else {
            None
        },
        XEventFields::ClientMessage { window, message_type, data0, data1, data2 } => {
            let fullscreen = ewmh[ewmh_index(EWMHAtom::NetWmStateFullscreen) as int];
            if message_type == ewmh[ewmh_index(EWMHAtom::NetWmState) as int] && (data1 as u64 == fullscreen || data2 as u64
                == fullscreen) {
                Some(
                    EventDecision::Event(
                        WindowEvent::FullscreenEvent(
                            FullscreenEvent {
                                window,
                                state: if data0 == 0 {
                                    FullscreenState::Off
                                } else if data0 == 1 {
                                    FullscreenState::On
                                } else {
                                    FullscreenState::Toggle
                                },
                            },
                        ),
                    ),
                )
            } else {
                None
            }
        },
        XEventFields::Other => None,
    }
}


/// The X event can be read: a button event names a known button, and a fullscreen request
/// says off, on or toggle.
pub open spec fn decodable(icccm: Seq<u64>, ewmh: Seq<u64>, ev: XEventFields) -> bool {
    match ev {
        XEventFields::Button { button, .. } => button_of_xbutton(button) is Some,
        XEventFields::ClientMessage { message_type, data0, data1, data2, .. } => {
            let fullscreen = ewmh[ewmh_index(EWMHAtom::NetWmStateFullscreen) as int];
            message_type == ewmh[ewmh_index(EWMHAtom::NetWmState) as int] && (data1 as u64 == fullscreen || data2 as u64
                == fullscreen) ==> 0 <= data0 <= 2
        },
        _ => true,
    }
}

/// Reads an X event into an event of the window manager: map, unmap, configure, enter,
/// destroy, motion, button and key events directly (a key the window manager does not
/// know gives nothing); a change of a window's name or type asks for the name or type to
/// be read; a `_NET_WM_STATE` message about fullscreen gives a fullscreen event; anything
/// else gives nothing.
pub fn xevent_to_window_event(atoms: &ICCCMAtoms, ewmh_atoms: &EWMHAtoms, event: XEventFields) -> (r: Option<
    EventDecision,
>)
    requires
        atoms.wf(),
        ewmh_atoms.wf(),
        decodable(atoms@, ewmh_atoms@, event),
    ensures
        r == decision_of(atoms@, ewmh_atoms@, event),
{
    match event {
        XEventFields::MapRequest { window } => Some(EventDecision::Event(WindowEvent::MapRequestEvent(MapEvent { window }))),
        XEventFields::UnmapNotify { window } => Some(EventDecision::Event(WindowEvent::UnmapEvent(UnmapEvent { window }))),
        XEventFields::ConfigureRequest { window, x, y, width, height } => Some(
            EventDecision::Event(
                WindowEvent::ConfigureEvent(
                    ConfigureEvent::new(window, Point::from_tuple((x, y)), Size::from_tuple((width, height))),
                ),
            ),
        ),
        XEventFields::EnterNotify { window } => Some(EventDecision::Event(WindowEvent::EnterEvent(EnterEvent { window }))),
        XEventFields::DestroyNotify { window } => Some(
            EventDecision::Event(WindowEvent::DestroyEvent(DestroyEvent::new(window))),
        ),
        XEventFields::MotionNotify { window, x, y } => Some(
            EventDecision::Event(WindowEvent::MotionEvent(MotionEvent::new(Point::from_tuple((x, y)), window))),
        ),
        XEventFields::Button { pressed, subwindow, button, x, y, state } => {
            let keycode = match xev_to_mouse_button(button) {
                Some(b) => b,
                None => {
                    proof {
                        assert(false);
                    }
                    MouseButton::Left
                },
            };
            let key_state = if pressed { KeyState::Pressed } else { KeyState::Released };
            let mods = ModifierState::from_modmask(state);
            Some(
                EventDecision::Event(
                    WindowEvent::ButtonEvent(
                        ButtonEvent::new(subwindow, key_state, keycode, Point::from_tuple((x, y)), mods),
                    ),
                ),
            )
        },
        XEventFields::Key { pressed, subwindow, keysym, state } => {
            let key_state = if pressed { KeyState::Pressed } else { KeyState::Released };
            match keysym_to_virtual_keycode(keysym) {
                Some(keycode) => {
                    let mods = ModifierState::from_modmask(state);
                    Some(EventDecision::Event(WindowEvent::KeyEvent(KeyEvent::new(subwindow, key_state, keycode, mods))))
                },
                None => None,
            }
        },
        XEventFields::PropertyNotify { window, atom } => {
            if atom == ewmh_atoms.index(EWMHAtom::NetWmName) || atom == atoms.index(ICCCMAtom::WmName) {
                Some(EventDecision::ReadName(window))
            } else if atom == ewmh_atoms.index(EWMHAtom::NetWmWindowType) {
                Some(EventDecision::ReadType(window))
            } else {
                None
            }
        },
        XEventFields::ClientMessage { window, message_type, data0, data1, data2 } => {
            let fullscreen = ewmh_atoms.index(EWMHAtom::NetWmStateFullscreen);
            if message_type == ewmh_atoms.index(EWMHAtom::NetWmState) && (data1 as u64 == fullscreen || data2 as u64
                == fullscreen) {
                let new_state = if data0 == 0 {
                    FullscreenState::Off
                } else if data0 == 1 {
                    FullscreenState::On
                } else {
                    FullscreenState::Toggle
                };
                Some(EventDecision::Event(WindowEvent::FullscreenEvent(FullscreenEvent::new(window, new_state))))
            } else {
                None
            }
        },
        XEventFields::Other => None,
    }
}


// ---------------------------------------------------------------------------
// Window lists and protocols.
// ---------------------------------------------------------------------------

/// An entry of the client list that does not stand for `window`.
pub open spec fn other_than(window: u64) -> spec_fn(i64) -> bool {
    |w: i64| w as u64 != window
}

/// The `_NET_CLIENT_LIST` property's windows without `window`, order kept.
pub fn client_list_without(clients: &Vec<i64>, window: u64) -> (r: Vec<i64>)
    ensures
        r@ == clients@.filter(other_than(window)),
{
    let mut r: Vec<i64> = Vec::new();
    let mut i: usize = 0;
    while i < clients.len()
        invariant
            i <= clients@.len(),
            r@ == clients@.subrange(0, i as int).filter(other_than(window)),
        decreases clients@.len() - i,
    {
        proof {
            let s = clients@.subrange(0, i as int + 1);
            assert(s.drop_last() =~= clients@.subrange(0, i as int));
            reveal(Seq::filter);
        }
        if clients[i] as u64 != window {
            r.push(clients[i]);
        }
        i = i + 1;
    }
    proof {
        assert(clients@.subrange(0, i as int) =~= clients@);
    }
    r
}

/// The window's `WM_PROTOCOLS` list names `proto`.
pub fn has_protocol(protos: &Vec<u64>, proto: u64) -> (r: bool)
    ensures
        r == protos@.contains(proto),
{
    let mut i: usize = 0;
    while i < protos.len()
        invariant
            i <= protos@.len(),
            forall|j: int| 0 <= j < i ==> protos@[j] != proto,
        decreases protos@.len() - i,
    {
        if protos[i] == proto {
            return true;
        }
        i = i + 1;
    }
    false
}

/// The long whose eight bytes, least significant first, are `b` (two's complement).
pub open spec fn le_long(b: Seq<u8>) -> int {
    let u = b[0] as int + 0x100 * b[1] + 0x1_0000 * b[2] + 0x100_0000 * b[3] + 0x1_0000_0000 * b[4]
        + 0x100_0000_0000 * b[5] + 0x1_0000_0000_0000 * b[6] + 0x100_0000_0000_0000 * b[7];
    if u >= 0x8000_0000_0000_0000 {
        u - 0x1_0000_0000_0000_0000
    } else {
        u
    }
}

/// The long whose eight bytes, most significant first, are `b` (two's complement).
pub open spec fn be_long(b: Seq<u8>) -> int {
    le_long(b.reverse())
}

/// `bytemuck::cast` from eight bytes to a long: the long whose bytes in memory are
/// `bytes`, that is their little-endian reading on a little-endian machine and their
/// big-endian reading on a big-endian one. Which of the two depends on the machine, so
/// the contract states only that it is one of them.
#[verifier::external_body]
fn long_from_bytes(bytes: [u8; 8]) -> (r: i64)
    ensures
        r == le_long(bytes@) || r == be_long(bytes@),
{
    bytemuck::cast::<[u8; 8], i64>(bytes)
}

/// The longs of a 32-bit format property as the server hands them over: one long for
/// each eight bytes, in order, each read in the machine's byte order. (Every long is the
/// little-endian or the big-endian reading of its eight bytes; that all of them are read
/// in the same order rests on the machine and is not stated.)
pub fn longs_from_bytes(bytes: &Vec<u8>) -> (r: Vec<i64>)
    requires
        bytes@.len() % 8 == 0,
    ensures
        r@.len() == bytes@.len() / 8,
        forall|j: int|
            0 <= j < r@.len() ==> #[trigger] r@[j] == le_long(bytes@.subrange(8 * j, 8 * j + 8)) || r@[j] == be_long(
                bytes@.subrange(8 * j, 8 * j + 8),
            ),
{
    let mut r: Vec<i64> = Vec::new();
    let mut i: usize = 0;
    while i < bytes.len()
        invariant
            i <= bytes@.len(),
            i % 8 == 0,
            bytes@.len() % 8 == 0,
            r@.len() == i / 8,
            forall|j: int|
                0 <= j < r@.len() ==> #[trigger] r@[j] == le_long(bytes@.subrange(8 * j, 8 * j + 8)) || r@[j]
                    == be_long(bytes@.subrange(8 * j, 8 * j + 8)),
        decreases bytes@.len() - i,
    {
        let chunk: [u8; 8] = [
            bytes[i],
            bytes[i + 1],
            bytes[i + 2],
            bytes[i + 3],
            bytes[i + 4],
            bytes[i + 5],
            bytes[i + 6],
            bytes[i + 7],
        ];
        proof {
            assert(chunk@ =~= bytes@.subrange(i as int, i + 8));
            assert(8 * (i / 8) == i);
        }
        r.push(long_from_bytes(chunk));
        i = i + 8;
    }
    r
}

/// Different EWMH atoms have different names, and every name starts with `_NET_`.
#[verifier::rlimit(50)]
pub proof fn lemma_ewmh_names_distinct(a: EWMHAtom, b: EWMHAtom)
    ensures
        a != b ==> ewmh_name(a)@ != ewmh_name(b)@,
        ewmh_name(a)@.len() > 5,
        ewmh_name(a)@.subrange(0, 5) == "_NET_"@,
{
    reveal_strlit("_NET_SUPPORTED");
    reveal_strlit("_NET_CLIENT_LIST");
    reveal_strlit("_NET_NUMBER_OF_DESKTOPS");
    reveal_strlit("_NET_DESKTOP_GEOMETRY");
    reveal_strlit("_NET_DESKTOP_VIEWPORT");
    reveal_strlit("_NET_CURRENT_DESKTOP");
    reveal_strlit("_NET_DESKTOP_NAMES");
    reveal_strlit("_NET_ACTIVE_WINDOW");
    reveal_strlit("_NET_WORKAREA");
    reveal_strlit("_NET_SUPPORTING_WM_CHECK");
    reveal_strlit("_NET_VIRTUAL_ROOTS");
    reveal_strlit("_NET_DESKTOP_LAYOUT");
    reveal_strlit("_NET_SHOWING_DESKTOP");
    reveal_strlit("_NET_CLOSE_WINDOW");
    reveal_strlit("_NET_MOVERESIZE_WINDOW");
    reveal_strlit("_NET_WM_MOVERESIZE");
    reveal_strlit("_NET_RESTACK_WINDOW");
    reveal_strlit("_NET_REQUEST_FRAME_EXTENTS");
    reveal_strlit("_NET_WM_NAME");
    reveal_strlit("_NET_WM_VISIBLE_NAME");
    reveal_strlit("_NET_WM_ICON_NAME");
    reveal_strlit("_NET_WM_VISIBLE_ICON_NAME");
    reveal_strlit("_NET_WM_DESKTOP");
    reveal_strlit("_NET_WM_WINDOW_TYPE");
    reveal_strlit("_NET_WM_STATE");
    reveal_strlit("_NET_WM_ALLOWED_ACTIONS");
    reveal_strlit("_NET_WM_STRUT");
    reveal_strlit("_NET_WM_STRUT_PARTIAL");
    reveal_strlit("_NET_WM_ICON_GEOMETRY");
    reveal_strlit("_NET_WM_ICON");
    reveal_strlit("_NET_WM_PID");
    reveal_strlit("_NET_WM_HANDLED_ICONS");
    reveal_strlit("_NET_WM_USER_TIME");
    reveal_strlit("_NET_FRAME_EXTENTS");
    reveal_strlit("_NET_WM_PING");
    reveal_strlit("_NET_WM_SYNC_REQUEST");
    reveal_strlit("_NET_WM_WINDOW_TYPE_DESKTOP");
    reveal_strlit("_NET_WM_WINDOW_TYPE_DOCK");
    reveal_strlit("_NET_WM_WINDOW_TYPE_TOOLBAR");
    reveal_strlit("_NET_WM_WINDOW_TYPE_MENU");
    reveal_strlit("_NET_WM_WINDOW_TYPE_UTILITY");
    reveal_strlit("_NET_WM_WINDOW_TYPE_SPLASH");
    reveal_strlit("_NET_WM_WINDOW_TYPE_DIALOG");
    reveal_strlit("_NET_WM_WINDOW_TYPE_NORMAL");
    reveal_strlit("_NET_WM_STATE_MODAL");
    reveal_strlit("_NET_WM_STATE_STICKY");
    reveal_strlit("_NET_WM_STATE_MAXIMIZED_VERT");
    reveal_strlit("_NET_WM_STATE_MAXIMIZED_HORZ");
    reveal_strlit("_NET_WM_STATE_SHADED");
    reveal_strlit("_NET_WM_STATE_SKIP_TASKBAR");
    reveal_strlit("_NET_WM_STATE_SKIP_PAGER");
    reveal_strlit("_NET_WM_STATE_HIDDEN");
    reveal_strlit("_NET_WM_STATE_FULLSCREEN");
    reveal_strlit("_NET_WM_STATE_ABOVE");
    reveal_strlit("_NET_WM_STATE_BELOW");
    reveal_strlit("_NET_WM_STATE_DEMANDS_ATTENTION");
    reveal_strlit("_NET_WM_ACTION_MOVE");
    reveal_strlit("_NET_WM_ACTION_RESIZE");
    reveal_strlit("_NET_WM_ACTION_MINIMIZE");
    reveal_strlit("_NET_WM_ACTION_SHADE");
    reveal_strlit("_NET_WM_ACTION_STICK");
    reveal_strlit("_NET_WM_ACTION_MAXIMIZE_HORZ");
    reveal_strlit("_NET_WM_ACTION_MAXIMIZE_VERT");
    reveal_strlit("_NET_WM_ACTION_FULLSCREEN");
    reveal_strlit("_NET_WM_ACTION_CHANGE_DESKTOP");
    reveal_strlit("_NET_WM_ACTION_CLOSE");
    reveal_strlit("_NET_");
    assert(ewmh_name(EWMHAtom::NetNumberOfDesktops)@[5] != ewmh_name(EWMHAtom::NetWmAllowedActions)@[5]);
    assert(ewmh_name(EWMHAtom::NetNumberOfDesktops)@[5] != ewmh_name(EWMHAtom::NetWmActionMinimize)@[5]);
    assert(ewmh_name(EWMHAtom::NetDesktopGeometry)@[13] != ewmh_name(EWMHAtom::NetDesktopViewport)@[13]);
    assert(ewmh_name(EWMHAtom::NetDesktopGeometry)@[5] != ewmh_name(EWMHAtom::NetWmStrutPartial)@[5]);
    assert(ewmh_name(EWMHAtom::NetDesktopGeometry)@[5] != ewmh_name(EWMHAtom::NetWmIconGeometry)@[5]);
    assert(ewmh_name(EWMHAtom::NetDesktopGeometry)@[5] != ewmh_name(EWMHAtom::NetWmHandledIcons)@[5]);
    assert(ewmh_name(EWMHAtom::NetDesktopGeometry)@[5] != ewmh_name(EWMHAtom::NetWmActionResize)@[5]);
    assert(ewmh_name(EWMHAtom::NetDesktopViewport)@[5] != ewmh_name(EWMHAtom::NetWmStrutPartial)@[5]);
    assert(ewmh_name(EWMHAtom::NetDesktopViewport)@[5] != ewmh_name(EWMHAtom::NetWmIconGeometry)@[5]);
    assert(ewmh_name(EWMHAtom::NetDesktopViewport)@[5] != ewmh_name(EWMHAtom::NetWmHandledIcons)@[5]);
    assert(ewmh_name(EWMHAtom::NetDesktopViewport)@[5] != ewmh_name(EWMHAtom::NetWmActionResize)@[5]);
    assert(ewmh_name(EWMHAtom::NetCurrentDesktop)@[5] != ewmh_name(EWMHAtom::NetShowingDesktop)@[5]);
    assert(ewmh_name(EWMHAtom::NetCurrentDesktop)@[5] != ewmh_name(EWMHAtom::NetWmVisibleName)@[5]);
    assert(ewmh_name(EWMHAtom::NetCurrentDesktop)@[5] != ewmh_name(EWMHAtom::NetWmSyncRequest)@[5]);
    assert(ewmh_name(EWMHAtom::NetCurrentDesktop)@[5] != ewmh_name(EWMHAtom::NetWmStateSticky)@[5]);
    assert(ewmh_name(EWMHAtom::NetCurrentDesktop)@[5] != ewmh_name(EWMHAtom::NetWmStateShaded)@[5]);
    assert(ewmh_name(EWMHAtom::NetCurrentDesktop)@[5] != ewmh_name(EWMHAtom::NetWmStateHidden)@[5]);
    assert(ewmh_name(EWMHAtom::NetCurrentDesktop)@[5] != ewmh_name(EWMHAtom::NetWmActionShade)@[5]);
    assert(ewmh_name(EWMHAtom::NetCurrentDesktop)@[5] != ewmh_name(EWMHAtom::NetWmActionStick)@[5]);
    assert(ewmh_name(EWMHAtom::NetCurrentDesktop)@[5] != ewmh_name(EWMHAtom::NetWmActionClose)@[5]);
    assert(ewmh_name(EWMHAtom::NetDesktopNames)@[5] != ewmh_name(EWMHAtom::NetActiveWindow)@[5]);
    assert(ewmh_name(EWMHAtom::NetDesktopNames)@[5] != ewmh_name(EWMHAtom::NetVirtualRoots)@[5]);
    assert(ewmh_name(EWMHAtom::NetDesktopNames)@[5] != ewmh_name(EWMHAtom::NetWmMoveresize)@[5]);
    assert(ewmh_name(EWMHAtom::NetDesktopNames)@[5] != ewmh_name(EWMHAtom::NetFrameExtents)@[5]);
    assert(ewmh_name(EWMHAtom::NetActiveWindow)@[5] != ewmh_name(EWMHAtom::NetVirtualRoots)@[5]);
    assert(ewmh_name(EWMHAtom::NetActiveWindow)@[5] != ewmh_name(EWMHAtom::NetWmMoveresize)@[5]);
    assert(ewmh_name(EWMHAtom::NetActiveWindow)@[5] != ewmh_name(EWMHAtom::NetFrameExtents)@[5]);
    assert(ewmh_name(EWMHAtom::NetWorkarea)@[6] != ewmh_name(EWMHAtom::NetWmState)@[6]);
    assert(ewmh_name(EWMHAtom::NetWorkarea)@[6] != ewmh_name(EWMHAtom::NetWmStrut)@[6]);
    assert(ewmh_name(EWMHAtom::NetSupportingWmCheck)@[5] != ewmh_name(EWMHAtom::NetWmWindowTypeDock)@[5]);
    assert(ewmh_name(EWMHAtom::NetSupportingWmCheck)@[5] != ewmh_name(EWMHAtom::NetWmWindowTypeMenu)@[5]);
    assert(ewmh_name(EWMHAtom::NetSupportingWmCheck)@[5] != ewmh_name(EWMHAtom::NetWmStateSkipPager)@[5]);
    assert(ewmh_name(EWMHAtom::NetSupportingWmCheck)@[5] != ewmh_name(EWMHAtom::NetWmStateFullscreen)@[5]);
    assert(ewmh_name(EWMHAtom::NetVirtualRoots)@[5] != ewmh_name(EWMHAtom::NetWmMoveresize)@[5]);
    assert(ewmh_name(EWMHAtom::NetVirtualRoots)@[5] != ewmh_name(EWMHAtom::NetFrameExtents)@[5]);
    assert(ewmh_name(EWMHAtom::NetDesktopLayout)@[5] != ewmh_name(EWMHAtom::NetRestackWindow)@[5]);
    assert(ewmh_name(EWMHAtom::NetDesktopLayout)@[5] != ewmh_name(EWMHAtom::NetWmWindowType)@[5]);
    assert(ewmh_name(EWMHAtom::NetDesktopLayout)@[5] != ewmh_name(EWMHAtom::NetWmStateModal)@[5]);
    assert(ewmh_name(EWMHAtom::NetDesktopLayout)@[5] != ewmh_name(EWMHAtom::NetWmStateAbove)@[5]);
    assert(ewmh_name(EWMHAtom::NetDesktopLayout)@[5] != ewmh_name(EWMHAtom::NetWmStateBelow)@[5]);
    assert(ewmh_name(EWMHAtom::NetDesktopLayout)@[5] != ewmh_name(EWMHAtom::NetWmActionMove)@[5]);
    assert(ewmh_name(EWMHAtom::NetShowingDesktop)@[5] != ewmh_name(EWMHAtom::NetWmVisibleName)@[5]);
    assert(ewmh_name(EWMHAtom::NetShowingDesktop)@[5] != ewmh_name(EWMHAtom::NetWmSyncRequest)@[5]);
    assert(ewmh_name(EWMHAtom::NetShowingDesktop)@[5] != ewmh_name(EWMHAtom::NetWmStateSticky)@[5]);
    assert(ewmh_name(EWMHAtom::NetShowingDesktop)@[5] != ewmh_name(EWMHAtom::NetWmStateShaded)@[5]);
    assert(ewmh_name(EWMHAtom::NetShowingDesktop)@[5] != ewmh_name(EWMHAtom::NetWmStateHidden)@[5]);
    assert(ewmh_name(EWMHAtom::NetShowingDesktop)@[5] != ewmh_name(EWMHAtom::NetWmActionShade)@[5]);
    assert(ewmh_name(EWMHAtom::NetShowingDesktop)@[5] != ewmh_name(EWMHAtom::NetWmActionStick)@[5]);
    assert(ewmh_name(EWMHAtom::NetShowingDesktop)@[5] != ewmh_name(EWMHAtom::NetWmActionClose)@[5]);
    assert(ewmh_name(EWMHAtom::NetCloseWindow)@[5] != ewmh_name(EWMHAtom::NetWmIconName)@[5]);
    assert(ewmh_name(EWMHAtom::NetCloseWindow)@[5] != ewmh_name(EWMHAtom::NetWmUserTime)@[5]);
    assert(ewmh_name(EWMHAtom::NetWmMoveresize)@[5] != ewmh_name(EWMHAtom::NetFrameExtents)@[5]);
    assert(ewmh_name(EWMHAtom::NetRestackWindow)@[5] != ewmh_name(EWMHAtom::NetWmWindowType)@[5]);
    assert(ewmh_name(EWMHAtom::NetRestackWindow)@[5] != ewmh_name(EWMHAtom::NetWmStateModal)@[5]);
    assert(ewmh_name(EWMHAtom::NetRestackWindow)@[5] != ewmh_name(EWMHAtom::NetWmStateAbove)@[5]);
    assert(ewmh_name(EWMHAtom::NetRestackWindow)@[5] != ewmh_name(EWMHAtom::NetWmStateBelow)@[5]);
    assert(ewmh_name(EWMHAtom::NetRestackWindow)@[5] != ewmh_name(EWMHAtom::NetWmActionMove)@[5]);
    assert(ewmh_name(EWMHAtom::NetRequestFrameExtents)@[5] != ewmh_name(EWMHAtom::NetWmWindowTypeSplash)@[5]);
    assert(ewmh_name(EWMHAtom::NetRequestFrameExtents)@[5] != ewmh_name(EWMHAtom::NetWmWindowTypeDialog)@[5]);
    assert(ewmh_name(EWMHAtom::NetRequestFrameExtents)@[5] != ewmh_name(EWMHAtom::NetWmWindowTypeNormal)@[5]);
    assert(ewmh_name(EWMHAtom::NetRequestFrameExtents)@[5] != ewmh_name(EWMHAtom::NetWmStateSkipTaskbar)@[5]);
    assert(ewmh_name(EWMHAtom::NetWmName)@[8] != ewmh_name(EWMHAtom::NetWmIcon)@[8]);
    assert(ewmh_name(EWMHAtom::NetWmName)@[8] != ewmh_name(EWMHAtom::NetWmPing)@[8]);
    assert(ewmh_name(EWMHAtom::NetWmVisibleName)@[8] != ewmh_name(EWMHAtom::NetWmSyncRequest)@[8]);
    assert(ewmh_name(EWMHAtom::NetWmVisibleName)@[8] != ewmh_name(EWMHAtom::NetWmStateSticky)@[8]);
    assert(ewmh_name(EWMHAtom::NetWmVisibleName)@[8] != ewmh_name(EWMHAtom::NetWmStateShaded)@[8]);
    assert(ewmh_name(EWMHAtom::NetWmVisibleName)@[8] != ewmh_name(EWMHAtom::NetWmStateHidden)@[8]);
    assert(ewmh_name(EWMHAtom::NetWmVisibleName)@[8] != ewmh_name(EWMHAtom::NetWmActionShade)@[8]);
    assert(ewmh_name(EWMHAtom::NetWmVisibleName)@[8] != ewmh_name(EWMHAtom::NetWmActionStick)@[8]);
    assert(ewmh_name(EWMHAtom::NetWmVisibleName)@[8] != ewmh_name(EWMHAtom::NetWmActionClose)@[8]);
    assert(ewmh_name(EWMHAtom::NetWmIconName)@[8] != ewmh_name(EWMHAtom::NetWmUserTime)@[8]);
    assert(ewmh_name(EWMHAtom::NetWmVisibleIconName)@[8] != ewmh_name(EWMHAtom::NetWmActionFullscreen)@[8]);
    assert(ewmh_name(EWMHAtom::NetWmWindowType)@[8] != ewmh_name(EWMHAtom::NetWmStateModal)@[8]);
    assert(ewmh_name(EWMHAtom::NetWmWindowType)@[8] != ewmh_name(EWMHAtom::NetWmStateAbove)@[8]);
    assert(ewmh_name(EWMHAtom::NetWmWindowType)@[8] != ewmh_name(EWMHAtom::NetWmStateBelow)@[8]);
    assert(ewmh_name(EWMHAtom::NetWmWindowType)@[8] != ewmh_name(EWMHAtom::NetWmActionMove)@[8]);
    assert(ewmh_name(EWMHAtom::NetWmState)@[10] != ewmh_name(EWMHAtom::NetWmStrut)@[10]);
    assert(ewmh_name(EWMHAtom::NetWmAllowedActions)@[9] != ewmh_name(EWMHAtom::NetWmActionMinimize)@[9]);
    assert(ewmh_name(EWMHAtom::NetWmStrutPartial)@[8] != ewmh_name(EWMHAtom::NetWmIconGeometry)@[8]);
    assert(ewmh_name(EWMHAtom::NetWmStrutPartial)@[8] != ewmh_name(EWMHAtom::NetWmHandledIcons)@[8]);
    assert(ewmh_name(EWMHAtom::NetWmStrutPartial)@[8] != ewmh_name(EWMHAtom::NetWmActionResize)@[8]);
    assert(ewmh_name(EWMHAtom::NetWmIconGeometry)@[8] != ewmh_name(EWMHAtom::NetWmHandledIcons)@[8]);
    assert(ewmh_name(EWMHAtom::NetWmIconGeometry)@[8] != ewmh_name(EWMHAtom::NetWmActionResize)@[8]);
    assert(ewmh_name(EWMHAtom::NetWmIcon)@[8] != ewmh_name(EWMHAtom::NetWmPing)@[8]);
    assert(ewmh_name(EWMHAtom::NetWmHandledIcons)@[8] != ewmh_name(EWMHAtom::NetWmActionResize)@[8]);
    assert(ewmh_name(EWMHAtom::NetWmSyncRequest)@[9] != ewmh_name(EWMHAtom::NetWmStateSticky)@[9]);
    assert(ewmh_name(EWMHAtom::NetWmSyncRequest)@[9] != ewmh_name(EWMHAtom::NetWmStateShaded)@[9]);
    assert(ewmh_name(EWMHAtom::NetWmSyncRequest)@[9] != ewmh_name(EWMHAtom::NetWmStateHidden)@[9]);
    assert(ewmh_name(EWMHAtom::NetWmSyncRequest)@[8] != ewmh_name(EWMHAtom::NetWmActionShade)@[8]);
    assert(ewmh_name(EWMHAtom::NetWmSyncRequest)@[8] != ewmh_name(EWMHAtom::NetWmActionStick)@[8]);
    assert(ewmh_name(EWMHAtom::NetWmSyncRequest)@[8] != ewmh_name(EWMHAtom::NetWmActionClose)@[8]);
    assert(ewmh_name(EWMHAtom::NetWmWindowTypeDesktop)@[20] != ewmh_name(EWMHAtom::NetWmWindowTypeToolbar)@[20]);
    assert(ewmh_name(EWMHAtom::NetWmWindowTypeDesktop)@[20] != ewmh_name(EWMHAtom::NetWmWindowTypeUtility)@[20]);
    assert(ewmh_name(EWMHAtom::NetWmWindowTypeDock)@[20] != ewmh_name(EWMHAtom::NetWmWindowTypeMenu)@[20]);
    assert(ewmh_name(EWMHAtom::NetWmWindowTypeDock)@[8] != ewmh_name(EWMHAtom::NetWmStateSkipPager)@[8]);
    assert(ewmh_name(EWMHAtom::NetWmWindowTypeDock)@[8] != ewmh_name(EWMHAtom::NetWmStateFullscreen)@[8]);
    assert(ewmh_name(EWMHAtom::NetWmWindowTypeToolbar)@[20] != ewmh_name(EWMHAtom::NetWmWindowTypeUtility)@[20]);
    assert(ewmh_name(EWMHAtom::NetWmWindowTypeMenu)@[8] != ewmh_name(EWMHAtom::NetWmStateSkipPager)@[8]);
    assert(ewmh_name(EWMHAtom::NetWmWindowTypeMenu)@[8] != ewmh_name(EWMHAtom::NetWmStateFullscreen)@[8]);
    assert(ewmh_name(EWMHAtom::NetWmWindowTypeSplash)@[20] != ewmh_name(EWMHAtom::NetWmWindowTypeDialog)@[20]);
    assert(ewmh_name(EWMHAtom::NetWmWindowTypeSplash)@[20] != ewmh_name(EWMHAtom::NetWmWindowTypeNormal)@[20]);
    assert(ewmh_name(EWMHAtom::NetWmWindowTypeSplash)@[8] != ewmh_name(EWMHAtom::NetWmStateSkipTaskbar)@[8]);
    assert(ewmh_name(EWMHAtom::NetWmWindowTypeDialog)@[20] != ewmh_name(EWMHAtom::NetWmWindowTypeNormal)@[20]);
    assert(ewmh_name(EWMHAtom::NetWmWindowTypeDialog)@[8] != ewmh_name(EWMHAtom::NetWmStateSkipTaskbar)@[8]);
    assert(ewmh_name(EWMHAtom::NetWmWindowTypeNormal)@[8] != ewmh_name(EWMHAtom::NetWmStateSkipTaskbar)@[8]);
    assert(ewmh_name(EWMHAtom::NetWmStateModal)@[14] != ewmh_name(EWMHAtom::NetWmStateAbove)@[14]);
    assert(ewmh_name(EWMHAtom::NetWmStateModal)@[14] != ewmh_name(EWMHAtom::NetWmStateBelow)@[14]);
    assert(ewmh_name(EWMHAtom::NetWmStateModal)@[8] != ewmh_name(EWMHAtom::NetWmActionMove)@[8]);
    assert(ewmh_name(EWMHAtom::NetWmStateSticky)@[15] != ewmh_name(EWMHAtom::NetWmStateShaded)@[15]);
    assert(ewmh_name(EWMHAtom::NetWmStateSticky)@[14] != ewmh_name(EWMHAtom::NetWmStateHidden)@[14]);
    assert(ewmh_name(EWMHAtom::NetWmStateSticky)@[8] != ewmh_name(EWMHAtom::NetWmActionShade)@[8]);
    assert(ewmh_name(EWMHAtom::NetWmStateSticky)@[8] != ewmh_name(EWMHAtom::NetWmActionStick)@[8]);
    assert(ewmh_name(EWMHAtom::NetWmStateSticky)@[8] != ewmh_name(EWMHAtom::NetWmActionClose)@[8]);
    assert(ewmh_name(EWMHAtom::NetWmStateMaximizedVert)@[24] != ewmh_name(EWMHAtom::NetWmStateMaximizedHorz)@[24]);
    assert(ewmh_name(EWMHAtom::NetWmStateMaximizedVert)@[8] != ewmh_name(EWMHAtom::NetWmActionMaximizeHorz)@[8]);
    assert(ewmh_name(EWMHAtom::NetWmStateMaximizedVert)@[8] != ewmh_name(EWMHAtom::NetWmActionMaximizeVert)@[8]);
    assert(ewmh_name(EWMHAtom::NetWmStateMaximizedHorz)@[8] != ewmh_name(EWMHAtom::NetWmActionMaximizeHorz)@[8]);
    assert(ewmh_name(EWMHAtom::NetWmStateMaximizedHorz)@[8] != ewmh_name(EWMHAtom::NetWmActionMaximizeVert)@[8]);
    assert(ewmh_name(EWMHAtom::NetWmStateShaded)@[14] != ewmh_name(EWMHAtom::NetWmStateHidden)@[14]);
    assert(ewmh_name(EWMHAtom::NetWmStateShaded)@[8] != ewmh_name(EWMHAtom::NetWmActionShade)@[8]);
    assert(ewmh_name(EWMHAtom::NetWmStateShaded)@[8] != ewmh_name(EWMHAtom::NetWmActionStick)@[8]);
    assert(ewmh_name(EWMHAtom::NetWmStateShaded)@[8] != ewmh_name(EWMHAtom::NetWmActionClose)@[8]);
    assert(ewmh_name(EWMHAtom::NetWmStateSkipPager)@[14] != ewmh_name(EWMHAtom::NetWmStateFullscreen)@[14]);
    assert(ewmh_name(EWMHAtom::NetWmStateHidden)@[8] != ewmh_name(EWMHAtom::NetWmActionShade)@[8]);
    assert(ewmh_name(EWMHAtom::NetWmStateHidden)@[8] != ewmh_name(EWMHAtom::NetWmActionStick)@[8]);
    assert(ewmh_name(EWMHAtom::NetWmStateHidden)@[8] != ewmh_name(EWMHAtom::NetWmActionClose)@[8]);
    assert(ewmh_name(EWMHAtom::NetWmStateAbove)@[14] != ewmh_name(EWMHAtom::NetWmStateBelow)@[14]);
    assert(ewmh_name(EWMHAtom::NetWmStateAbove)@[8] != ewmh_name(EWMHAtom::NetWmActionMove)@[8]);
    assert(ewmh_name(EWMHAtom::NetWmStateBelow)@[8] != ewmh_name(EWMHAtom::NetWmActionMove)@[8]);
    assert(ewmh_name(EWMHAtom::NetWmActionShade)@[16] != ewmh_name(EWMHAtom::NetWmActionStick)@[16]);
    assert(ewmh_name(EWMHAtom::NetWmActionShade)@[15] != ewmh_name(EWMHAtom::NetWmActionClose)@[15]);
    assert(ewmh_name(EWMHAtom::NetWmActionStick)@[15] != ewmh_name(EWMHAtom::NetWmActionClose)@[15]);
    assert(ewmh_name(EWMHAtom::NetWmActionMaximizeHorz)@[24] != ewmh_name(EWMHAtom::NetWmActionMaximizeVert)@[24]);
    assert(ewmh_name(a)@.subrange(0, 5) =~= "_NET_"@);
}

/// Adding a window to a client list that does not hold it and then taking it out again
/// gives the list back: a map request appends the window, and its destruction filters it
/// out.
pub proof fn lemma_client_list_round_trip(clients: Seq<i64>, window: u64)
    requires
        forall|i: int| 0 <= i < clients.len() ==> #[trigger] clients[i] as u64 != window,
    ensures
        clients.push(window as i64).filter(other_than(window)) == clients,
{
    let f = other_than(window);
    assert((window as i64) as u64 == window) by (bit_vector);
    clients.lemma_filter_push(window as i64, f);
    lemma_filter_keeps_all(clients, window);
}

/// A list none of whose entries stands for `window` is its own filter.
proof fn lemma_filter_keeps_all(clients: Seq<i64>, window: u64)
    requires
        forall|i: int| 0 <= i < clients.len() ==> #[trigger] clients[i] as u64 != window,
    ensures
        clients.filter(other_than(window)) == clients,
    decreases clients.len(),
{
    reveal(Seq::filter);
    if clients.len() > 0 {
        let d = clients.drop_last();
        assert forall|i: int| 0 <= i < d.len() implies #[trigger] d[i] as u64 != window by {
            assert(d[i] == clients[i]);
        }
        lemma_filter_keeps_all(d, window);
        assert(clients.last() as u64 != window);
        assert(d.push(clients.last()) =~= clients);
    }
}

} // verus!

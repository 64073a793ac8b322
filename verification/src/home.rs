use vstd::prelude::*;
use crate::action::Action;
use crate::ascii::AsciiConverter;
use crate::ascii::CharacterSet;
use crate::ascii::ColoredChar;
use crate::ascii::converted_grid_ok;
use crate::ascii::error_cell;
use crate::ascii::valid_frame;

verus! {

/// The status line's content, kept as data; the shell renders it as text.
#[derive(Debug, Clone, PartialEq, Eq)]
pub enum StatusMessage {
    PressStart,
    CamerasFound(usize),
    NoCamerasFound,
    ListError(String),
    CameraActive,
    CameraStopped(usize),
    StartingCamera,
    StoppingCamera,
    CharacterSetChanged(CharacterSet),
    ColorMode(bool),
    ScaleChanged(u16),
}

/// The home view's state: the converter configuration, the last converted
/// frame, and what the status line should say.
pub struct Home {
    pub ascii_converter: AsciiConverter,
    pub current_frame: Vec<Vec<ColoredChar>>,
    pub camera_active: bool,
    pub camera_error: Option<String>,
    pub current_camera_index: u32,
    pub available_cameras: Vec<(u32, String)>,
    pub status: StatusMessage,
}

impl Home {
    /// The converter's scale factor stays in range.
    pub open spec fn wf(self) -> bool {
        self.ascii_converter.wf()
    }

    /// A fresh home view: a dense 80x24 converter, no frame, no camera.
    pub fn new() -> (r: Home)
        ensures
            r.ascii_converter == AsciiConverter::new_spec(CharacterSet::Dense, 80u32, 24u32),
            r.current_frame@.len() == 0,
            !r.camera_active,
            r.camera_error is None,
            r.current_camera_index == 0,
            r.available_cameras@.len() == 0,
            r.status == StatusMessage::PressStart,
            r.wf(),
    {
        Home {
            ascii_converter: AsciiConverter::new_dense(80, 24),
            current_frame: Vec::new(),
            camera_active: false,
            camera_error: None,
            current_camera_index: 0,
            available_cameras: Vec::new(),
            status: StatusMessage::PressStart,
        }
    }

    /// Sizes the converter to the terminal, leaving room for the status and
    /// control bars: four columns and six rows are reserved.
    pub fn init(&mut self, term_width: u16, term_height: u16)
        ensures
            *final(self) == (Home {
                ascii_converter: (AsciiConverter {
                    width: (if term_width >= 4 {
                        (term_width - 4) as u32
                    } else {
                        0u32
                    }),
                    height: (if term_height >= 6 {
                        (term_height - 6) as u32
                    } else {
                        0u32
                    }),
                    ..old(self).ascii_converter
                }),
                ..*old(self)
            }),
    {
        let w: u32 = if term_width >= 4 {
            (term_width - 4) as u32
        } else {
            0
        };
        let h: u32 = if term_height >= 6 {
            (term_height - 6) as u32
        } else {
            0
        };
        self.ascii_converter.resize(w, h);
    }

    /// Installs the filtered device list and says how many devices exist.
    pub fn set_camera_list(&mut self, cameras: Vec<(u32, String)>)
        ensures
            *final(self) == (Home {
                available_cameras: cameras,
                status: (if cameras@.len() == 0 {
                    StatusMessage::NoCamerasFound
                } else {
                    StatusMessage::CamerasFound(cameras@.len() as usize)
                }),
                ..*old(self)
            }),
    {
        let n: usize = cameras.len();
        self.available_cameras = cameras;
        self.status = if n == 0 {
            StatusMessage::NoCamerasFound
        } else {
            StatusMessage::CamerasFound(n)
        };
    }

    /// Reports a failure of the device enumeration in the status line.
    pub fn set_camera_list_error(&mut self, msg: String)
        ensures
            *final(self) == (Home { status: StatusMessage::ListError(msg), ..*old(self) }),
    {
        self.status = StatusMessage::ListError(msg);
    }

    /// Applies one message to the view state: frames are converted (only
    /// while the camera is on), camera lifecycle notices update the flags
    /// and the status line, and the UI commands adjust the converter.
    /// Returns no follow-up message.
    pub fn update(&mut self, action: &Action) -> (r: Option<Action>)
        requires
            old(self).wf(),
        ensures
            final(self).wf(),
            r is None,
            match *action {
                Action::CameraFrame(d, w, h) => {
                    if old(self).camera_active {
                        &&& final(self).ascii_converter == old(self).ascii_converter
                        &&& final(self).camera_active == old(self).camera_active
                        &&& final(self).current_camera_index == old(self).current_camera_index
                        &&& final(self).available_cameras == old(self).available_cameras
                        &&& final(self).status == old(self).status
                        &&& final(self).camera_error is None
                        &&& (valid_frame(d@.len() as int, w as int, h as int)
                            ==> converted_grid_ok(
                            old(self).ascii_converter,
                            d@,
                            w as int,
                            h as int,
                            final(self).current_frame@,
                        ))
                        &&& (!valid_frame(d@.len() as int, w as int, h as int) ==> (
                        final(self).current_frame@.len() == 1 && final(self).current_frame@[0]@
                            =~= seq![error_cell()]))
                    } else {
                        *final(self) == *old(self)
                    }
                },
                Action::CameraError(e) => *final(self) == (Home {
                    camera_error: Some(e),
                    camera_active: false,
                    ..*old(self)
                }),
                Action::StartCamera => *final(self) == (Home {
                    camera_active: true,
                    camera_error: None::<String>,
                    status: StatusMessage::CameraActive,
                    ..*old(self)
                }),
                Action::StopCamera => {
                    &&& final(self).ascii_converter == old(self).ascii_converter
                    &&& final(self).camera_active == false
                    &&& final(self).camera_error == old(self).camera_error
                    &&& final(self).current_camera_index == old(self).current_camera_index
                    &&& final(self).available_cameras == old(self).available_cameras
                    &&& final(self).current_frame@.len() == 0
                    &&& final(self).status == StatusMessage::CameraStopped(
                        old(self).available_cameras@.len() as usize,
                    )
                },
                Action::ToggleCamera => *final(self) == (Home {
                    status: (if old(self).camera_active {
                        StatusMessage::StoppingCamera
                    } else {
                        StatusMessage::StartingCamera
                    }),
                    ..*old(self)
                }),
                Action::NextCharacterSet => *final(self) == (Home {
                    ascii_converter: (AsciiConverter {
                        character_set: old(self).ascii_converter.character_set.next_spec(),
                        ..old(self).ascii_converter
                    }),
                    status: StatusMessage::CharacterSetChanged(
                        old(self).ascii_converter.character_set.next_spec(),
                    ),
                    ..*old(self)
                }),
                Action::PreviousCharacterSet => *final(self) == (Home {
                    ascii_converter: (AsciiConverter {
                        character_set: old(self).ascii_converter.character_set.previous_spec(),
                        ..old(self).ascii_converter
                    }),
                    status: StatusMessage::CharacterSetChanged(
                        old(self).ascii_converter.character_set.previous_spec(),
                    ),
                    ..*old(self)
                }),
                Action::ToggleColor => *final(self) == (Home {
                    ascii_converter: (AsciiConverter {
                        color_enabled: !old(self).ascii_converter.color_enabled,
                        ..old(self).ascii_converter
                    }),
                    status: StatusMessage::ColorMode(!old(self).ascii_converter.color_enabled),
                    ..*old(self)
                }),
                Action::IncreaseScale => *final(self) == (Home {
                    ascii_converter: (AsciiConverter {
                        scale_tenths: (if old(self).ascii_converter.scale_tenths + 1 > 20 {
                            20u16
                        } else {
                            (old(self).ascii_converter.scale_tenths + 1) as u16
                        }),
                        ..old(self).ascii_converter
                    }),
                    status: StatusMessage::ScaleChanged(
                        (if old(self).ascii_converter.scale_tenths + 1 > 20 {
                            20u16
                        } else {
                            (old(self).ascii_converter.scale_tenths + 1) as u16
                        }),
                    ),
                    ..*old(self)
                }),
                Action::DecreaseScale => *final(self) == (Home {
                    ascii_converter: (AsciiConverter {
                        scale_tenths: (if old(self).ascii_converter.scale_tenths - 1 < 1 {
                            1u16
                        } else {
                            (old(self).ascii_converter.scale_tenths - 1) as u16
                        }),
                        ..old(self).ascii_converter
                    }),
                    status: StatusMessage::ScaleChanged(
                        (if old(self).ascii_converter.scale_tenths - 1 < 1 {
                            1u16
                        } else {
                            (old(self).ascii_converter.scale_tenths - 1) as u16
                        }),
                    ),
                    ..*old(self)
                }),
                Action::Resize(w2, h2) => *final(self) == (Home {
                    ascii_converter: (AsciiConverter {
                        width: (if w2 >= 4 {
                            (w2 - 4) as u32
                        } else {
                            0u32
                        }),
                        height: (if h2 >= 6 {
                            (h2 - 6) as u32
                        } else {
                            0u32
                        }),
                        ..old(self).ascii_converter
                    }),
                    ..*old(self)
                }),
                _ => *final(self) == *old(self),
            },
    {
        match action {
            Action::CameraFrame(d, w, h) => {
                if self.camera_active {
                    let grid: Vec<Vec<ColoredChar>> = self.ascii_converter
                        .convert_rgb_frame_direct(d.as_slice(), *w, *h);
                    self.current_frame = grid;
                    self.camera_error = None;
                }
            },
            Action::CameraError(e) => {
                self.camera_error = Some(e.clone());
                self.camera_active = false;
            },
            Action::StartCamera => {
                self.camera_active = true;
                self.camera_error = None;
                self.status = StatusMessage::CameraActive;
            },
            Action::StopCamera => {
                self.camera_active = false;
                self.current_frame = Vec::new();
                self.status = StatusMessage::CameraStopped(self.available_cameras.len());
            },
            Action::ToggleCamera => {
                self.status = if self.camera_active {
                    StatusMessage::StoppingCamera
                } else {
                    StatusMessage::StartingCamera
                };
            },
            Action::NextCharacterSet => {
                self.ascii_converter.next_character_set();
                let cs: CharacterSet = self.ascii_converter.character_set();
                self.status = StatusMessage::CharacterSetChanged(cs);
            },
            Action::PreviousCharacterSet => {
                self.ascii_converter.previous_character_set();
                let cs: CharacterSet = self.ascii_converter.character_set();
                self.status = StatusMessage::CharacterSetChanged(cs);
            },
            Action::ToggleColor => {
                self.ascii_converter.toggle_color();
                let on: bool = self.ascii_converter.color_enabled();
                self.status = StatusMessage::ColorMode(on);
            },
            Action::IncreaseScale => {
                self.ascii_converter.increase_scale();
                let s: u16 = self.ascii_converter.scale_tenths();
                self.status = StatusMessage::ScaleChanged(s);
            },
            Action::DecreaseScale => {
                self.ascii_converter.decrease_scale();
                let s: u16 = self.ascii_converter.scale_tenths();
                self.status = StatusMessage::ScaleChanged(s);
            },
            Action::Resize(w2, h2) => {
                let w: u32 = if *w2 >= 4 {
                    (*w2 - 4) as u32
                } else {
                    0
                };
                let h: u32 = if *h2 >= 6 {
                    (*h2 - 6) as u32
                } else {
                    0
                };
                self.ascii_converter.resize(w, h);
            },
            _ => {},
        }
        None
    }
}

} // verus!

verus! {

impl Default for Home {
    fn default() -> (r: Home)
        ensures
            r.ascii_converter == AsciiConverter::new_spec(CharacterSet::Dense, 80u32, 24u32),
            r.current_frame@.len() == 0,
            !r.camera_active,
            r.camera_error is None,
            r.available_cameras@.len() == 0,
            r.status == StatusMessage::PressStart,
            r.wf(),
    {
        Home::new()
    }
}

} // verus!

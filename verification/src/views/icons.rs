//! The glyphs of the UI, as inline SVG that takes its colour from the text around it.

use vstd::prelude::*;

verus! {

pub const LAPTOP_ICON: &'static str = "\
    <svg xmlns=\"http://www.w3.org/2000/svg\" width=\"18\" height=\"18\" viewBox=\"0 0 24 24\" \
      fill=\"none\" stroke=\"currentColor\" stroke-width=\"2\" stroke-linecap=\"round\" \
      stroke-linejoin=\"round\" aria-hidden=\"true\">\
      <rect x=\"3\" y=\"4\" width=\"18\" height=\"12\" rx=\"2\" ry=\"2\"></rect>\
      <line x1=\"2\" y1=\"20\" x2=\"22\" y2=\"20\"></line>\
    </svg>";

pub const KEY_ICON: &'static str = "\
    <svg xmlns=\"http://www.w3.org/2000/svg\" width=\"18\" height=\"18\" viewBox=\"0 0 24 24\" \
      fill=\"none\" stroke=\"currentColor\" stroke-width=\"2\" stroke-linecap=\"round\" \
      stroke-linejoin=\"round\" aria-hidden=\"true\">\
      <path d=\"M21 2l-9.6 9.6\"></path>\
      <circle cx=\"7.5\" cy=\"15.5\" r=\"5.5\"></circle>\
      <path d=\"M21 2l-2.5 2.5L21 7l-3 3-2.5-2.5\"></path>\
    </svg>";

pub const DEVICE_MOBILE_ICON: &'static str = "\
    <svg xmlns=\"http://www.w3.org/2000/svg\" width=\"18\" height=\"18\" viewBox=\"0 0 24 24\" \
      fill=\"none\" stroke=\"currentColor\" stroke-width=\"2\" stroke-linecap=\"round\" \
      stroke-linejoin=\"round\" aria-hidden=\"true\">\
      <rect x=\"6\" y=\"2\" width=\"12\" height=\"20\" rx=\"2.5\"></rect>\
      <path d=\"M11 18h2\"></path>\
    </svg>";

pub const INFO_ICON: &'static str = "\
    <svg xmlns=\"http://www.w3.org/2000/svg\" width=\"18\" height=\"18\" viewBox=\"0 0 24 24\" \
      fill=\"none\" stroke=\"currentColor\" stroke-width=\"2\" stroke-linecap=\"round\" \
      stroke-linejoin=\"round\" aria-hidden=\"true\">\
      <circle cx=\"12\" cy=\"12\" r=\"10\"></circle>\
      <path d=\"M12 16v-4\"></path>\
      <path d=\"M12 8h.01\"></path>\
    </svg>";

pub const PENCIL_ICON: &'static str = "\
    <svg xmlns=\"http://www.w3.org/2000/svg\" width=\"16\" height=\"16\" viewBox=\"0 0 24 24\" \
      fill=\"none\" stroke=\"currentColor\" stroke-width=\"2\" stroke-linecap=\"round\" \
      stroke-linejoin=\"round\" aria-hidden=\"true\">\
      <path d=\"M12 20h9\"></path>\
      <path d=\"M16.5 3.5a2.12 2.12 0 0 1 3 3L7 19l-4 1 1-4Z\"></path>\
    </svg>";

pub const DATABASE_ICON: &'static str = "\
    <svg xmlns=\"http://www.w3.org/2000/svg\" width=\"18\" height=\"18\" viewBox=\"0 0 24 24\" \
      fill=\"none\" stroke=\"currentColor\" stroke-width=\"2\" stroke-linecap=\"round\" \
      stroke-linejoin=\"round\" aria-hidden=\"true\">\
      <ellipse cx=\"12\" cy=\"5\" rx=\"9\" ry=\"3\"></ellipse>\
      <path d=\"M3 5v6c0 1.66 4.03 3 9 3s9-1.34 9-3V5\"></path>\
      <path d=\"M3 11v6c0 1.66 4.03 3 9 3s9-1.34 9-3v-6\"></path>\
    </svg>";

pub const SHIELD_ICON: &'static str = "\
    <svg xmlns=\"http://www.w3.org/2000/svg\" width=\"22\" height=\"22\" viewBox=\"0 0 24 24\" \
      fill=\"none\" stroke=\"currentColor\" stroke-width=\"2\" stroke-linecap=\"round\" \
      stroke-linejoin=\"round\" aria-hidden=\"true\">\
      <path d=\"M12 22s8-4 8-10V5l-8-3-8 3v7c0 6 8 10 8 10z\"></path>\
    </svg>";

pub const EYE_ICON: &'static str = "\
    <svg xmlns=\"http://www.w3.org/2000/svg\" width=\"18\" height=\"18\" viewBox=\"0 0 24 24\" \
      fill=\"none\" stroke=\"currentColor\" stroke-width=\"2\" stroke-linecap=\"round\" \
      stroke-linejoin=\"round\" aria-hidden=\"true\">\
      <path d=\"M2 12s3-7 10-7 10 7 10 7-3 7-10 7-10-7-10-7Z\"></path>\
      <circle cx=\"12\" cy=\"12\" r=\"3\"></circle>\
    </svg>";

pub const EYE_OFF_ICON: &'static str = "\
    <svg xmlns=\"http://www.w3.org/2000/svg\" width=\"18\" height=\"18\" viewBox=\"0 0 24 24\" \
      fill=\"none\" stroke=\"currentColor\" stroke-width=\"2\" stroke-linecap=\"round\" \
      stroke-linejoin=\"round\" aria-hidden=\"true\">\
      <path d=\"M10.73 5.08A10.43 10.43 0 0 1 12 5c7 0 10 7 10 7a13.16 13.16 0 0 1-1.67 \
        2.68\"></path>\
      <path d=\"M6.61 6.61A13.526 13.526 0 0 0 2 12s3 7 10 7a9.74 9.74 0 0 0 5.39-1.61\"></path>\
      <path d=\"M9.88 9.88a3 3 0 1 0 4.24 4.24\"></path>\
      <line x1=\"2\" x2=\"22\" y1=\"2\" y2=\"22\"></line>\
    </svg>";

pub const FINGERPRINT_ICON: &'static str = "\
    <svg xmlns=\"http://www.w3.org/2000/svg\" width=\"18\" height=\"18\" viewBox=\"0 0 24 24\" \
      fill=\"none\" stroke=\"currentColor\" stroke-width=\"2\" stroke-linecap=\"round\" \
      stroke-linejoin=\"round\" aria-hidden=\"true\">\
      <path d=\"M2 12C2 6.5 6.5 2 12 2a10 10 0 0 1 8 4\"></path>\
      <path d=\"M5 19.5C5.5 18 6 15 6 12c0-.7.12-1.37.34-2\"></path>\
      <path d=\"M17.29 21.02c.12-.6.43-2.3.5-3.02\"></path>\
      <path d=\"M12 10a2 2 0 0 0-2 2c0 1.02-.1 2.51-.26 4\"></path>\
      <path d=\"M8.65 22c.21-.66.45-1.32.57-2\"></path>\
      <path d=\"M14 13.12c0 2.38 0 6.38-1 8.88\"></path>\
      <path d=\"M2 16h.01\"></path>\
      <path d=\"M21.8 16c.2-2 .131-5.354 0-6\"></path>\
      <path d=\"M9 6.8a6 6 0 0 1 9 5.2c0 .47 0 1.17-.02 2\"></path>\
    </svg>";

pub const USER_ICON: &'static str = "\
    <svg xmlns=\"http://www.w3.org/2000/svg\" width=\"22\" height=\"22\" viewBox=\"0 0 24 24\" \
      fill=\"none\" stroke=\"currentColor\" stroke-width=\"2\" stroke-linecap=\"round\" \
      stroke-linejoin=\"round\" aria-hidden=\"true\">\
      <path d=\"M20 21v-2a4 4 0 0 0-4-4H8a4 4 0 0 0-4 4v2\"></path>\
      <circle cx=\"12\" cy=\"7\" r=\"4\"></circle>\
    </svg>";

pub const USER_SHIELD_ICON: &'static str = "\
    <svg xmlns=\"http://www.w3.org/2000/svg\" width=\"22\" height=\"22\" viewBox=\"0 0 24 24\" \
      fill=\"none\" stroke=\"currentColor\" stroke-width=\"2\" stroke-linecap=\"round\" \
      stroke-linejoin=\"round\" aria-hidden=\"true\">\
      <path d=\"M3 21v-2a4 4 0 0 1 4-4h6\"></path>\
      <circle cx=\"10\" cy=\"7\" r=\"4\"></circle>\
      <path d=\"M19 11l3 1v3c0 2-3 4-3 4s-3-2-3-4v-3l3-1z\"></path>\
    </svg>";

pub const CROWN_ICON: &'static str = "\
    <svg xmlns=\"http://www.w3.org/2000/svg\" width=\"22\" height=\"22\" viewBox=\"0 0 24 24\" \
      fill=\"none\" stroke=\"currentColor\" stroke-width=\"2\" stroke-linecap=\"round\" \
      stroke-linejoin=\"round\" aria-hidden=\"true\">\
      <path d=\"M3 7l4 5 5-7 5 7 4-5v11H3z\"></path>\
      <path d=\"M3 21h18\"></path>\
    </svg>";

pub const USER_PLUS_ICON: &'static str = "\
    <svg xmlns=\"http://www.w3.org/2000/svg\" width=\"22\" height=\"22\" viewBox=\"0 0 24 24\" \
      fill=\"none\" stroke=\"currentColor\" stroke-width=\"2\" stroke-linecap=\"round\" \
      stroke-linejoin=\"round\" aria-hidden=\"true\">\
      <path d=\"M16 21v-2a4 4 0 0 0-4-4H5a4 4 0 0 0-4 4v2\"></path>\
      <circle cx=\"8.5\" cy=\"7\" r=\"4\"></circle>\
      <line x1=\"20\" y1=\"8\" x2=\"20\" y2=\"14\"></line>\
      <line x1=\"23\" y1=\"11\" x2=\"17\" y2=\"11\"></line>\
    </svg>";

pub const CHECK_CIRCLE_ICON: &'static str = "\
    <svg xmlns=\"http://www.w3.org/2000/svg\" width=\"22\" height=\"22\" viewBox=\"0 0 24 24\" \
      fill=\"none\" stroke=\"currentColor\" stroke-width=\"2\" stroke-linecap=\"round\" \
      stroke-linejoin=\"round\" aria-hidden=\"true\">\
      <circle cx=\"12\" cy=\"12\" r=\"10\"></circle>\
      <polyline points=\"8 12 11 15 16 9\"></polyline>\
    </svg>";

pub const CLOSE_ICON: &'static str = "\
    <svg xmlns=\"http://www.w3.org/2000/svg\" width=\"18\" height=\"18\" viewBox=\"0 0 24 24\" \
      fill=\"none\" stroke=\"currentColor\" stroke-width=\"2\" stroke-linecap=\"round\" \
      stroke-linejoin=\"round\" aria-hidden=\"true\">\
      <line x1=\"18\" y1=\"6\" x2=\"6\" y2=\"18\"></line>\
      <line x1=\"6\" y1=\"6\" x2=\"18\" y2=\"18\"></line>\
    </svg>";

pub const INFO_CIRCLE_ICON: &'static str = "\
    <svg xmlns=\"http://www.w3.org/2000/svg\" width=\"22\" height=\"22\" viewBox=\"0 0 24 24\" \
      fill=\"none\" stroke=\"currentColor\" stroke-width=\"2\" stroke-linecap=\"round\" \
      stroke-linejoin=\"round\" aria-hidden=\"true\">\
      <circle cx=\"12\" cy=\"12\" r=\"10\"></circle>\
      <line x1=\"12\" y1=\"11\" x2=\"12\" y2=\"16\"></line>\
      <line x1=\"12\" y1=\"7.5\" x2=\"12\" y2=\"7.5\"></line>\
    </svg>";

pub const ALERT_CIRCLE_ICON: &'static str = "\
    <svg xmlns=\"http://www.w3.org/2000/svg\" width=\"16\" height=\"16\" viewBox=\"0 0 24 24\" \
      fill=\"none\" stroke=\"currentColor\" stroke-width=\"2\" stroke-linecap=\"round\" \
      stroke-linejoin=\"round\" class=\"dialog-alert-icon\" aria-hidden=\"true\">\
      <circle cx=\"12\" cy=\"12\" r=\"10\"></circle>\
      <line x1=\"12\" y1=\"8\" x2=\"12\" y2=\"13\"></line>\
      <line x1=\"12\" y1=\"16.5\" x2=\"12\" y2=\"16.5\"></line>\
    </svg>";

pub const TRASH_ICON: &'static str = "\
    <svg xmlns=\"http://www.w3.org/2000/svg\" width=\"22\" height=\"22\" viewBox=\"0 0 24 24\" \
      fill=\"none\" stroke=\"currentColor\" stroke-width=\"2\" stroke-linecap=\"round\" \
      stroke-linejoin=\"round\" aria-hidden=\"true\">\
      <polyline points=\"3 6 5 6 21 6\"></polyline>\
      <path d=\"M19 6l-1 14a2 2 0 0 1-2 2H8a2 2 0 0 1-2-2L5 6\"></path>\
      <path d=\"M10 11v6\"></path>\
      <path d=\"M14 11v6\"></path>\
      <path d=\"M9 6V4a2 2 0 0 1 2-2h2a2 2 0 0 1 2 2v2\"></path>\
    </svg>";

pub const USERS_ICON: &'static str = "\
    <svg xmlns=\"http://www.w3.org/2000/svg\" width=\"20\" height=\"20\" viewBox=\"0 0 24 24\" \
      fill=\"none\" stroke=\"currentColor\" stroke-width=\"2\" stroke-linecap=\"round\" \
      stroke-linejoin=\"round\" aria-hidden=\"true\">\
      <path d=\"M16 21v-2a4 4 0 0 0-4-4H6a4 4 0 0 0-4 4v2\"></path>\
      <circle cx=\"9\" cy=\"7\" r=\"4\"></circle>\
      <path d=\"M22 21v-2a4 4 0 0 0-3-3.87\"></path>\
      <path d=\"M16 3.13a4 4 0 0 1 0 7.75\"></path>\
    </svg>";

pub const SEARCH_GLYPH_ICON: &'static str = "\
    <svg xmlns=\"http://www.w3.org/2000/svg\" width=\"16\" height=\"16\" viewBox=\"0 0 24 24\" \
      fill=\"none\" stroke=\"currentColor\" stroke-width=\"2\" stroke-linecap=\"round\" \
      stroke-linejoin=\"round\" aria-hidden=\"true\">\
      <circle cx=\"11\" cy=\"11\" r=\"7\"></circle>\
      <line x1=\"21\" y1=\"21\" x2=\"16.65\" y2=\"16.65\"></line>\
    </svg>";

pub const INCOGNITO_ICON: &'static str = "\
    <svg xmlns=\"http://www.w3.org/2000/svg\" width=\"22\" height=\"22\" viewBox=\"0 0 24 24\" \
      fill=\"none\" stroke=\"currentColor\" stroke-width=\"2\" stroke-linecap=\"round\" \
      stroke-linejoin=\"round\" aria-hidden=\"true\">\
      <path d=\"M6 10 Q6 5 12 5 Q18 5 18 10\"></path>\
      <line x1=\"3\" y1=\"11\" x2=\"21\" y2=\"11\"></line>\
      <circle cx=\"7.5\" cy=\"16\" r=\"3\" fill=\"currentColor\"></circle>\
      <circle cx=\"16.5\" cy=\"16\" r=\"3\" fill=\"currentColor\"></circle>\
      <line x1=\"10.5\" y1=\"16\" x2=\"13.5\" y2=\"16\"></line>\
    </svg>";

pub const SETTINGS_ICON: &'static str = "\
    <svg xmlns=\"http://www.w3.org/2000/svg\" width=\"16\" height=\"16\" viewBox=\"0 0 24 24\" \
      fill=\"none\" stroke=\"currentColor\" stroke-width=\"2\" stroke-linecap=\"round\" \
      stroke-linejoin=\"round\" aria-hidden=\"true\">\
      <circle cx=\"12\" cy=\"12\" r=\"3\"></circle>\
      <path d=\"M19.4 15a1.65 1.65 0 0 0 .33 1.82l.06.06a2 2 0 0 1 0 2.83 2 2 0 0 1-2.83 \
        0l-.06-.06a1.65 1.65 0 0 0-1.82-.33 1.65 1.65 0 0 0-1 1.51V21a2 2 0 0 1-2 2 2 2 0 \
        0 1-2-2v-.09a1.65 1.65 0 0 0-1-1.51 1.65 1.65 0 0 0-1.82.33l-.06.06a2 2 0 0 \
        1-2.83 0 2 2 0 0 1 0-2.83l.06-.06a1.65 1.65 0 0 0 .33-1.82 1.65 1.65 0 0 \
        0-1.51-1H3a2 2 0 0 1-2-2 2 2 0 0 1 2-2h.09a1.65 1.65 0 0 0 1.51-1 1.65 1.65 0 0 \
        0-.33-1.82l-.06-.06a2 2 0 0 1 0-2.83 2 2 0 0 1 2.83 0l.06.06a1.65 1.65 0 0 0 \
        1.82.33h0a1.65 1.65 0 0 0 1-1.51V3a2 2 0 0 1 2-2 2 2 0 0 1 2 2v.09a1.65 1.65 0 0 \
        0 1 1.51h0a1.65 1.65 0 0 0 1.82-.33l.06-.06a2 2 0 0 1 2.83 0 2 2 0 0 1 0 \
        2.83l-.06.06a1.65 1.65 0 0 0-.33 1.82v0a1.65 1.65 0 0 0 1.51 1H21a2 2 0 0 1 2 2 2 \
        2 0 0 1-2 2h-.09a1.65 1.65 0 0 0-1.51 1z\"></path>\
    </svg>";

pub const SIGNOUT_ICON: &'static str = "\
    <svg xmlns=\"http://www.w3.org/2000/svg\" width=\"16\" height=\"16\" viewBox=\"0 0 24 24\" \
      fill=\"none\" stroke=\"currentColor\" stroke-width=\"2\" stroke-linecap=\"round\" \
      stroke-linejoin=\"round\" aria-hidden=\"true\">\
      <path d=\"M9 21H5a2 2 0 0 1-2-2V5a2 2 0 0 1 2-2h4\"></path>\
      <polyline points=\"16 17 21 12 16 7\"></polyline>\
      <line x1=\"21\" y1=\"12\" x2=\"9\" y2=\"12\"></line>\
    </svg>";

pub const THEME_AUTO_ICON: &'static str = "\
    <svg xmlns=\"http://www.w3.org/2000/svg\" width=\"16\" height=\"16\" viewBox=\"0 0 24 24\" \
      fill=\"none\" stroke=\"currentColor\" stroke-width=\"2\" stroke-linecap=\"round\" \
      stroke-linejoin=\"round\" aria-hidden=\"true\">\
      <circle cx=\"12\" cy=\"12\" r=\"9\"></circle>\
      <path d=\"M12 3a9 9 0 0 0 0 18z\" fill=\"currentColor\" stroke=\"none\"></path>\
    </svg>";

pub const THEME_DARK_ICON: &'static str = "\
    <svg xmlns=\"http://www.w3.org/2000/svg\" width=\"16\" height=\"16\" viewBox=\"0 0 24 24\" \
      fill=\"none\" stroke=\"currentColor\" stroke-width=\"2\" stroke-linecap=\"round\" \
      stroke-linejoin=\"round\" aria-hidden=\"true\">\
      <path d=\"M21 12.79A9 9 0 1 1 11.21 3 7 7 0 0 0 21 12.79z\"></path>\
    </svg>";

pub const DOTS_VERTICAL_ICON: &'static str = "\
    <svg xmlns=\"http://www.w3.org/2000/svg\" width=\"16\" height=\"16\" viewBox=\"0 0 24 24\" \
      fill=\"currentColor\" aria-hidden=\"true\">\
      <circle cx=\"12\" cy=\"5\" r=\"1.6\"></circle>\
      <circle cx=\"12\" cy=\"12\" r=\"1.6\"></circle>\
      <circle cx=\"12\" cy=\"19\" r=\"1.6\"></circle>\
    </svg>";

pub const RADIO_ON_ICON: &'static str = "\
    <svg xmlns=\"http://www.w3.org/2000/svg\" width=\"16\" height=\"16\" viewBox=\"0 0 24 24\" \
      fill=\"none\" stroke=\"currentColor\" stroke-width=\"2\" stroke-linecap=\"round\" \
      stroke-linejoin=\"round\" aria-hidden=\"true\">\
      <circle cx=\"12\" cy=\"12\" r=\"9\"></circle>\
      <circle cx=\"12\" cy=\"12\" r=\"4\" fill=\"currentColor\" stroke=\"none\"></circle>\
    </svg>";

pub const RADIO_OFF_ICON: &'static str = "\
    <svg xmlns=\"http://www.w3.org/2000/svg\" width=\"16\" height=\"16\" viewBox=\"0 0 24 24\" \
      fill=\"none\" stroke=\"currentColor\" stroke-width=\"2\" stroke-linecap=\"round\" \
      stroke-linejoin=\"round\" aria-hidden=\"true\">\
      <circle cx=\"12\" cy=\"12\" r=\"9\"></circle>\
    </svg>";

pub const THEME_LIGHT_ICON: &'static str = "\
    <svg xmlns=\"http://www.w3.org/2000/svg\" width=\"16\" height=\"16\" viewBox=\"0 0 24 24\" \
      fill=\"none\" stroke=\"currentColor\" stroke-width=\"2\" stroke-linecap=\"round\" \
      stroke-linejoin=\"round\" aria-hidden=\"true\">\
      <circle cx=\"12\" cy=\"12\" r=\"4\"></circle>\
      <line x1=\"12\" y1=\"2\" x2=\"12\" y2=\"4\"></line>\
      <line x1=\"12\" y1=\"20\" x2=\"12\" y2=\"22\"></line>\
      <line x1=\"2\" y1=\"12\" x2=\"4\" y2=\"12\"></line>\
      <line x1=\"20\" y1=\"12\" x2=\"22\" y2=\"12\"></line>\
      <line x1=\"4.93\" y1=\"4.93\" x2=\"6.34\" y2=\"6.34\"></line>\
      <line x1=\"17.66\" y1=\"17.66\" x2=\"19.07\" y2=\"19.07\"></line>\
      <line x1=\"4.93\" y1=\"19.07\" x2=\"6.34\" y2=\"17.66\"></line>\
      <line x1=\"17.66\" y1=\"6.34\" x2=\"19.07\" y2=\"4.93\"></line>\
    </svg>";

pub const CHEVRON_LEFT_ICON: &'static str = "\
    <svg xmlns=\"http://www.w3.org/2000/svg\" width=\"14\" height=\"14\" viewBox=\"0 0 24 24\" \
      fill=\"none\" stroke=\"currentColor\" stroke-width=\"2\" stroke-linecap=\"round\" \
      stroke-linejoin=\"round\" class=\"btn-icon\" aria-hidden=\"true\">\
      <polyline points=\"15 18 9 12 15 6\"></polyline>\
    </svg>";

pub const CHEVRON_RIGHT_ICON: &'static str = "\
    <svg xmlns=\"http://www.w3.org/2000/svg\" width=\"14\" height=\"14\" viewBox=\"0 0 24 24\" \
      fill=\"none\" stroke=\"currentColor\" stroke-width=\"2\" stroke-linecap=\"round\" \
      stroke-linejoin=\"round\" class=\"btn-icon\" aria-hidden=\"true\">\
      <polyline points=\"9 18 15 12 9 6\"></polyline>\
    </svg>";

pub const CHEVRON_DOUBLE_LEFT_ICON: &'static str = "\
    <svg xmlns=\"http://www.w3.org/2000/svg\" width=\"14\" height=\"14\" viewBox=\"0 0 24 24\" \
      fill=\"none\" stroke=\"currentColor\" stroke-width=\"2\" stroke-linecap=\"round\" \
      stroke-linejoin=\"round\" class=\"btn-icon\" aria-hidden=\"true\">\
      <polyline points=\"11 17 6 12 11 7\"></polyline>\
      <polyline points=\"18 17 13 12 18 7\"></polyline>\
    </svg>";

pub const CHEVRON_DOUBLE_RIGHT_ICON: &'static str = "\
    <svg xmlns=\"http://www.w3.org/2000/svg\" width=\"14\" height=\"14\" viewBox=\"0 0 24 24\" \
      fill=\"none\" stroke=\"currentColor\" stroke-width=\"2\" stroke-linecap=\"round\" \
      stroke-linejoin=\"round\" class=\"btn-icon\" aria-hidden=\"true\">\
      <polyline points=\"13 17 18 12 13 7\"></polyline>\
      <polyline points=\"6 17 11 12 6 7\"></polyline>\
    </svg>";

pub const CHEVRON_DOWN_ICON: &'static str = "\
    <svg xmlns=\"http://www.w3.org/2000/svg\" width=\"14\" height=\"14\" viewBox=\"0 0 24 24\" \
      fill=\"none\" stroke=\"currentColor\" stroke-width=\"2\" stroke-linecap=\"round\" \
      stroke-linejoin=\"round\" class=\"btn-icon\" aria-hidden=\"true\">\
      <polyline points=\"6 9 12 15 18 9\"></polyline>\
    </svg>";

pub const CHECK_SMALL_ICON: &'static str = "\
    <svg xmlns=\"http://www.w3.org/2000/svg\" width=\"14\" height=\"14\" viewBox=\"0 0 24 24\" \
      fill=\"none\" stroke=\"currentColor\" stroke-width=\"2.5\" stroke-linecap=\"round\" \
      stroke-linejoin=\"round\" class=\"btn-icon\" aria-hidden=\"true\">\
      <polyline points=\"20 6 9 17 4 12\"></polyline>\
    </svg>";

pub const LOCK_ICON: &'static str = "\
    <svg xmlns=\"http://www.w3.org/2000/svg\" width=\"14\" height=\"14\" viewBox=\"0 0 24 24\" \
      fill=\"none\" stroke=\"currentColor\" stroke-width=\"2\" stroke-linecap=\"round\" \
      stroke-linejoin=\"round\">\
      <rect x=\"4\" y=\"11\" width=\"16\" height=\"10\" rx=\"2\"></rect>\
      <path d=\"M8 11V8a4 4 0 0 1 8 0v3\"></path>\
    </svg>";

pub const PLUS_ICON: &'static str = "\
    <svg xmlns=\"http://www.w3.org/2000/svg\" width=\"16\" height=\"16\" viewBox=\"0 0 24 24\" \
      fill=\"none\" stroke=\"currentColor\" stroke-width=\"2.5\" stroke-linecap=\"round\" \
      stroke-linejoin=\"round\" class=\"btn-icon\" aria-hidden=\"true\">\
      <line x1=\"12\" y1=\"5\" x2=\"12\" y2=\"19\"></line>\
      <line x1=\"5\" y1=\"12\" x2=\"19\" y2=\"12\"></line>\
    </svg>";

pub const EVENTS_ICON: &'static str = "\
    <svg xmlns=\"http://www.w3.org/2000/svg\" width=\"16\" height=\"16\" viewBox=\"0 0 24 24\" \
      fill=\"none\" stroke=\"currentColor\" stroke-width=\"2\" stroke-linecap=\"round\" \
      stroke-linejoin=\"round\" aria-hidden=\"true\">\
      <line x1=\"8\" y1=\"6\" x2=\"21\" y2=\"6\"></line>\
      <line x1=\"8\" y1=\"12\" x2=\"21\" y2=\"12\"></line>\
      <line x1=\"8\" y1=\"18\" x2=\"21\" y2=\"18\"></line>\
      <line x1=\"3\" y1=\"6\" x2=\"3.01\" y2=\"6\"></line>\
      <line x1=\"3\" y1=\"12\" x2=\"3.01\" y2=\"12\"></line>\
      <line x1=\"3\" y1=\"18\" x2=\"3.01\" y2=\"18\"></line>\
    </svg>";

pub const APPS_ICON: &'static str = "\
    <svg xmlns=\"http://www.w3.org/2000/svg\" width=\"16\" height=\"16\" viewBox=\"0 0 24 24\" \
      fill=\"none\" stroke=\"currentColor\" stroke-width=\"2\" stroke-linecap=\"round\" \
      stroke-linejoin=\"round\" aria-hidden=\"true\">\
      <rect x=\"3\" y=\"3\" width=\"7\" height=\"7\" rx=\"1\"></rect>\
      <rect x=\"14\" y=\"3\" width=\"7\" height=\"7\" rx=\"1\"></rect>\
      <rect x=\"14\" y=\"14\" width=\"7\" height=\"7\" rx=\"1\"></rect>\
      <rect x=\"3\" y=\"14\" width=\"7\" height=\"7\" rx=\"1\"></rect>\
    </svg>";

pub const MAIL_ICON: &'static str = "\
    <svg xmlns=\"http://www.w3.org/2000/svg\" width=\"16\" height=\"16\" viewBox=\"0 0 24 24\" \
      fill=\"none\" stroke=\"currentColor\" stroke-width=\"2\" stroke-linecap=\"round\" \
      stroke-linejoin=\"round\" aria-hidden=\"true\">\
      <rect x=\"2\" y=\"4\" width=\"20\" height=\"16\" rx=\"2\"></rect>\
      <path d=\"m22 7-8.97 5.7a1.94 1.94 0 0 1-2.06 0L2 7\"></path>\
    </svg>";

} // verus!

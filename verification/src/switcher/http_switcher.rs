//! The switcher's web pages: the description of the pages and their
//! controls, and what the page service answers on its path: the page, its
//! style sheets, its scripts (followed by the description of the pages),
//! or a websocket bridged to the MQTT broker.

use vstd::prelude::*;
use vstd::string::{StringExecFns, StrSliceExecFns};
use vstd::utf8::{encode_utf8, is_char_boundary};
use std::collections::HashMap;
use crate::switcher::mqtt_client::MQTT_PORT;
use crate::switcher::mqtt_server::{host_of, listen_addr, port_or};
use crate::http::usize_to_decimal;

verus! {

/// A switch, a read-only switch or a button bound to an attribute.
#[derive(Debug, Clone)]
pub struct SwHttpCtrlSwitch {
    pub title: Option<String>,
    pub role: Option<String>,
    pub attr: String,
}

/// A colour picker bound to an attribute.
#[derive(Debug, Clone)]
pub struct SwHttpCtrlRgb {
    pub title: Option<String>,
    pub role: Option<String>,
    pub attr: String,
}

/// A slider over a range of values of an attribute.
#[derive(Debug, Clone)]
pub struct SwHttpCtrlRange {
    pub title: Option<String>,
    pub role: Option<String>,
    pub attr: String,
    pub min: u16,
    pub max: u16,
}

/// The value of an attribute shown as text, rounded and with a unit.
#[derive(Debug, Clone)]
pub struct SwHttpCtrlText {
    pub title: Option<String>,
    pub role: Option<String>,
    pub attr: String,
    pub round: Option<u16>,
    pub unit: Option<String>,
}

/// A choice among values of an attribute, each with its label.
#[derive(Debug, Clone)]
pub struct SwHttpCtrlSelect {
    pub title: Option<String>,
    pub role: Option<String>,
    pub attr: String,
    pub value_map: HashMap<String, String>,
}

/// A control of a page element.
#[derive(Debug, Clone)]
pub enum SwHttpCtrl {
    Switch(SwHttpCtrlSwitch),
    SwitchRo(SwHttpCtrlSwitch),
    ColorRgb(SwHttpCtrlRgb),
    Button(SwHttpCtrlSwitch),
    Select(SwHttpCtrlSelect),
    Text(SwHttpCtrlText),
    Range(SwHttpCtrlRange),
}

/// The attributes that tell an element's state: whether it is reachable,
/// its signal and its battery.
#[derive(Debug, Clone)]
pub struct SwHttpProps {
    pub reachable: Option<String>,
    pub signal: Option<String>,
    pub battery: Option<String>,
}

/// An element of a page: a device with its controls.
#[derive(Debug, Clone)]
pub struct SwHttpElement {
    pub title: Option<String>,
    pub icon: Option<String>,
    pub display: Option<String>,
    pub props: Option<SwHttpProps>,
    pub controls: Vec<SwHttpCtrl>,
}

/// A page.
#[derive(Debug, Clone)]
pub struct SwHttpPage {
    pub title: String,
    pub elements: Vec<SwHttpElement>,
}

/// The pages of the system.
#[derive(Debug, Clone)]
pub struct SwHttpSystem {
    pub id: String,
    pub pages: Vec<SwHttpPage>,
}

/// The page service: the HTTP server it registers with, its path, the
/// directory of its files, the pages, and the MQTT broker its websocket
/// reaches.
#[derive(Debug, Clone)]
pub struct HttpSwitcher {
    pub server_id: Option<String>,
    pub path: Option<String>,
    pub dir: Option<String>,
    pub system: SwHttpSystem,
    pub mqtt_ip: Option<String>,
    pub mqtt_port: Option<u16>,
}

/// What the page service serves.
#[derive(Debug, Clone, Copy, PartialEq, Eq, Structural)]
pub enum SwitcherPage {
    Index,
    Css,
    Js,
    Mqtt,
}

/// The text of a string, or a default.
pub open spec fn text_or(s: Option<String>, default: Seq<char>) -> Seq<char> {
    match s {
        Some(t) => t@,
        None => default,
    }
}

/// The bytes of a text.
pub open spec fn bytes_of(s: Seq<char>) -> Seq<u8> {
    encode_utf8(s)
}

/// What a request's path asks of the page service: the part after the
/// service's own path (of `path_len` bytes) names a page, a style sheet, a
/// script or the websocket; anything else, or a path too short, nothing.
pub open spec fn page_of(path_len: nat, request: Seq<u8>) -> Option<SwitcherPage> {
    if request.len() < path_len {
        None
    } else {
        let rest = request.skip(path_len as int);
        if rest == bytes_of("index.html"@) {
            Some(SwitcherPage::Index)
        } else if rest == bytes_of("css.css"@) {
            Some(SwitcherPage::Css)
        } else if rest == bytes_of("js.js"@) {
            Some(SwitcherPage::Js)
        } else if rest == bytes_of("mqtt"@) {
            Some(SwitcherPage::Mqtt)
        } else {
            None
        }
    }
}

/// How the page service answers a file request: the content type, the
/// files sent one after the other, whether a line feed follows each,
/// whether the description of the pages follows them, and whether the
/// content length is counted.
#[derive(Debug, Clone)]
pub struct PageReply {
    pub content_type: String,
    pub files: Vec<String>,
    pub line_after_each: bool,
    pub system_after: bool,
    pub auto_content_length: bool,
}

fn text_eq(a: &[u8], b: &str) -> (r: bool)
    ensures
        r == (a@ == bytes_of(b@)),
{
    let bb = b.as_bytes_vec();
    if a.len() != bb.len() {
        return false;
    }
    let mut i: usize = 0;
    while i < a.len()
        invariant
            i <= a@.len(),
            a@.len() == bb@.len(),
            bb@ == bytes_of(b@),
            forall|j: int| 0 <= j < i ==> a@[j] == bb@[j],
        decreases a@.len() - i,
    {
        if a[i] != bb[i] {
            proof {
                assert(a@[i as int] != bb@[i as int]);
            }
            return false;
        }
        i += 1;
    }
    proof {
        assert(a@ =~= bb@);
    }
    true
}

fn joined(dir: &str, name: &str) -> (r: String)
    ensures
        r@ == dir@ + name@,
{
    let mut s = String::from_str(dir);
    s.append(name);
    s
}

impl HttpSwitcher {
    /// The service's path: "/" unless set.
    pub fn path(&self) -> (r: String)
        ensures
            r@ == text_or(self.path, seq!['/']),
    {
        match &self.path {
            Some(p) => String::from_str(p.as_str()),
            None => {
                let s = String::from_str("/");
                proof {
                    reveal_strlit("/");
                }
                s
            },
        }
    }

    /// The directory of the service's files: "./" unless set.
    pub fn dir(&self) -> (r: String)
        ensures
            r@ == text_or(self.dir, seq!['.', '/']),
    {
        match &self.dir {
            Some(d) => String::from_str(d.as_str()),
            None => {
                let s = String::from_str("./");
                proof {
                    reveal_strlit("./");
                }
                s
            },
        }
    }

    /// The MQTT broker the websocket reaches: the system's address and port
    /// 1883 unless set.
    pub fn mqtt_addr(&self, default_ip: &str) -> (r: String)
        ensures
            r@ == listen_addr(host_of(self.mqtt_ip, default_ip@), port_or(self.mqtt_port, MQTT_PORT)),
    {
        let mut s = match &self.mqtt_ip {
            Some(h) => String::from_str(h.as_str()),
            None => String::from_str(default_ip),
        };
        s.append(":");
        let port = match self.mqtt_port {
            Some(p) => p,
            None => MQTT_PORT,
        };
        let p = usize_to_decimal(port as usize);
        s.append(p.as_str());
        proof {
            reveal_strlit(":");
            assert(s@ =~= listen_addr(host_of(self.mqtt_ip, default_ip@), port_or(self.mqtt_port, MQTT_PORT)));
        }
        s
    }

    /// The name the service registers with.
    pub fn service_name(&self, default_ip: &str) -> (r: String)
        ensures
            r@ == "Switcher Server, mqtt to: "@ + listen_addr(
                host_of(self.mqtt_ip, default_ip@),
                port_or(self.mqtt_port, MQTT_PORT),
            ),
    {
        let mut s = String::from_str("Switcher Server, mqtt to: ");
        let a = self.mqtt_addr(default_ip);
        s.append(a.as_str());
        s
    }

    /// What a request's path asks of the service, as `page_of` says. The
    /// service's path ends at a character of the request's path.
    pub fn page(&self, request_path: &str) -> (r: Option<SwitcherPage>)
        requires
            bytes_of(request_path@).len() >= bytes_of(text_or(self.path, seq!['/'])).len() ==> is_char_boundary(
                bytes_of(request_path@),
                bytes_of(text_or(self.path, seq!['/'])).len() as int,
            ),
        ensures
            r == page_of(bytes_of(text_or(self.path, seq!['/'])).len(), encode_utf8(request_path@)),
    {
        let own = self.path();
        let n = own.as_str().as_bytes_vec().len();
        let b = request_path.as_bytes_vec();
        if b.len() < n {
            return None;
        }
        let rest = vstd::slice::slice_to_vec(&b.as_slice()[n..b.len()]);
        proof {
            assert(rest@ =~= b@.skip(n as int));
        }
        if text_eq(rest.as_slice(), "index.html") {
            Some(SwitcherPage::Index)
        } else if text_eq(rest.as_slice(), "css.css") {
            Some(SwitcherPage::Css)
        } else if text_eq(rest.as_slice(), "js.js") {
            Some(SwitcherPage::Js)
        } else if text_eq(rest.as_slice(), "mqtt") {
            Some(SwitcherPage::Mqtt)
        } else {
            None
        }
    }
}

} // verus!

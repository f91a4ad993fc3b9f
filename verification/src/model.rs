//! Records exchanged with the database service: real-time registrations,
//! users and their rights, alarm notice settings, requests of the history,
//! authentication, key-value and status services, devices, and versions.

use std::collections::{HashMap, HashSet};
use vstd::prelude::*;
use crate::query::{HisQuery, HisSetPointQuery};

verus! {

/// Topic of registration messages.
pub const TOPIC_REGISTER: &'static str = "register";

/// Topic of web requests.
pub const TOPIC_WEB_REQUEST: &'static str = "request";

/// Topic of web responses.
pub const TOPIC_WEB_RESPONSE: &'static str = "response";

/// Topic of registrations for real-time messages.
pub const REGISTER_REALTIME_MSG_TOPIC: &'static str = "registerRt";

/// Topic of real-time message updates.
pub const UPDATE_REALTIME_MSG_TOPIC: &'static str = "updateRt";

/// The tag group of measurement points.
pub const TAG_GROUP_POINT: u8 = 1;

/// The administrator is the first user; its id is fixed and it cannot be
/// deleted or changed.
pub const USER_ADMIN_ID: u16 = 1;

/// A listener's registration for real-time messages of some devices.
#[derive(Clone, Debug)]
pub struct EigRtRegister {
    /// The listener, usually its own bee id; may be empty when a socket
    /// session id tells the listener.
    pub listener_id: String,
    /// The devices (plcc or mems ids).
    pub lcc_id: Vec<String>,
    /// The points of each device; `vec![0]` means all.
    pub measure: Vec<Vec<(u32, Vec<u64>)>>,
    /// Alarms of each device.
    pub alarm: Vec<bool>,
    /// AOE results of each device.
    pub aoe: Vec<bool>,
    /// Commands of each device.
    pub command: Vec<bool>,
    /// Logs of each device.
    pub log: Vec<bool>,
}

/// The registrations for real-time messages, keyed by bee (lcc) id.
#[derive(Debug)]
pub struct RtMsgRegisterData {
    pub measure_registers: HashMap<String, Vec<(u32, HashSet<u64>)>>,
    pub alarm_registers: HashSet<String>,
    pub aoe_registers: HashSet<String>,
    pub cmd_registers: HashSet<String>,
    pub log_registers: HashSet<String>,
}

/// The public information of a user.
#[derive(Debug, Clone)]
pub struct UserPub {
    pub id: u16,
    pub name: String,
    pub desc: Option<String>,
    /// The id of the user's group; a user belongs to one group.
    pub user_group: u16,
    /// Roles given to this user in particular.
    pub special_role: Vec<u16>,
    pub phone_number: Option<String>,
    pub email: Option<String>,
    pub expiration_time: Option<u64>,
}

/// A user with its secret information.
#[derive(Debug, Clone)]
pub struct User {
    pub pub_info: UserPub,
    /// The encrypted password.
    pub password: Vec<u8>,
    /// When the password was last changed.
    pub password_update_time: u64,
}

/// A group of users and the roles it has.
#[derive(Debug, Clone)]
pub struct UserGroup {
    pub id: u16,
    pub name: String,
    pub user_group2role: Vec<u16>,
}

/// A role and its authorities and menus.
#[derive(Debug, Clone)]
pub struct Role {
    pub id: u16,
    pub name: String,
    pub role2authority: Vec<u16>,
    pub role2menu: Vec<u16>,
}

/// An authority: a request method on a URL.
#[derive(Debug, Clone)]
pub struct Authority {
    pub id: u16,
    pub name: String,
    pub desc: String,
    pub method: String,
    pub url: String,
}

/// A menu item.
#[derive(Debug, Clone)]
pub struct Menuitem {
    pub id: u16,
    pub name: String,
    pub group: String,
    pub url: String,
}

/// How an alarm is notified: desktop popup, sound and light, text message.
#[derive(Debug, Clone)]
pub struct AlarmNoticeSetting {
    pub popup_window: bool,
    pub sound_light: bool,
    pub text_messages: bool,
}

/// The notice settings of emergency, important and common alarms.
#[derive(Debug, Clone)]
pub struct AlarmConfig {
    pub emergency: AlarmNoticeSetting,
    pub important: AlarmNoticeSetting,
    pub common: AlarmNoticeSetting,
}

/// Requests to the history service.
#[derive(Clone, Debug)]
pub enum HisRequest {
    QueryMeasures(HisQuery),
    QuerySoes(HisQuery),
    QueryAoeResults(HisQuery),
    QueryAlarms(HisQuery),
    QueryUnconfirmedAlarms,
    QuerySetPointResults(HisSetPointQuery),
}

/// Requests to the authentication service.
#[derive(Clone, Debug)]
pub enum AuthRequest {
    CheckLogin(String, Vec<u8>),
    QueryUsers,
}

/// Operations on the key-value store.
#[derive(Clone, Debug)]
pub enum KvOperation {
    Query(Vec<u8>),
    Update(Vec<u8>, Vec<u8>),
    Update2(Vec<u8>, Vec<u8>, Vec<u8>),
    Delete(Vec<u8>),
}

/// Requests common to all services: key-value operations and tags.
#[derive(Clone, Debug)]
pub enum CommonRequest {
    KvRequest(KvOperation),
    QueryIdsWithTag(u8, Vec<u16>),
    QueryTagDefs(u8),
    UpdateTags(u8, Vec<(String, Vec<u64>)>),
    DeleteTags(u8, Vec<(u16, u64)>),
}

/// Requests of the AOE status.
#[derive(Clone, Debug)]
pub enum StatusRequest {
    RunningAoes,
    UnrunAoes,
}

/// Where an energy management system listens.
#[derive(Clone, Debug)]
pub struct EmsBroadcast {
    pub ip: String,
    pub rt_listen_port: u16,
    pub tcp_listen_port: u16,
}

/// An lcc device.
#[derive(PartialEq, Debug, Clone)]
pub struct LccDevice {
    pub lcc_id: String,
    pub name: String,
    pub desc: String,
    pub ip: String,
    pub is_ems: bool,
}

/// A commit of a version: its number, note and tree id.
#[derive(Clone, Debug)]
pub struct CommitNote {
    pub version: u32,
    pub note: String,
    pub tree_id: String,
}

/// Data of one version, with its commit note.
#[derive(Clone, Debug)]
pub struct VersionData<T> {
    pub note: CommitNote,
    pub data: T,
}

/// Query of a version; none means version 0.
#[derive(Clone, Debug)]
pub struct VersionQuery {
    pub version: Option<u32>,
}

} // verus!

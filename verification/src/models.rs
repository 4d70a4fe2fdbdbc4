//! The records that the server stores and exchanges.
//!
//! Sensor readings (temperature, CO2 parts per million, light) are `f32` values on the
//! wire and in the database; here each is held as the IEEE-754 bit pattern of that `f32`
//! (`f32::to_bits`), which the library stores, filters and lists but never computes with.
use vstd::prelude::*;

verus! {

/// A user as the `users` table stores it; `id` is the primary key and `psk_hash` the
/// Argon2 PHC string of the password (it holds its salt).
#[derive(Debug, PartialEq, Eq)]
pub struct User {
    pub id: String,
    pub psk_hash: String,
    pub fname: String,
    pub lname: String,
    pub address: String,
}

/// The part of a user by which the server recognises an account: its names and address.
#[derive(Debug, PartialEq, Eq)]
pub struct BaseUser {
    pub fname: String,
    pub lname: String,
    pub address: String,
}

/// An account as a client sends it, with the password in clear.
#[derive(Debug, PartialEq, Eq)]
pub struct UserIn {
    pub fname: String,
    pub lname: String,
    pub address: String,
    pub password: String,
}

/// A reading as the sensor sends it; the server adds the time of arrival.
#[derive(Debug, PartialEq, Eq)]
pub struct FrameIn {
    pub uid: String,
    pub temp: u32,
    pub ppm: u32,
    pub light: u32,
    pub boiler: bool,
}

/// A reading as the `frames` table stores it; `(uid, datetime)` is the primary key.
#[derive(Debug, PartialEq, Eq)]
pub struct Frame {
    pub uid: String,
    pub datetime: String,
    pub temp: u32,
    pub ppm: u32,
    pub light: u32,
    pub boiler: bool,
}

/// All readings of one user, field by field, in the order in which they are stored.
#[derive(Debug, PartialEq, Eq)]
pub struct SensorDatas {
    pub datetimes: Vec<String>,
    pub temps: Vec<u32>,
    pub ppms: Vec<u32>,
    pub lights: Vec<u32>,
    pub boilers: Vec<bool>,
}

impl Clone for User {
    fn clone(&self) -> (r: Self)
        ensures
            r == *self,
    {
        User {
            id: self.id.clone(),
            psk_hash: self.psk_hash.clone(),
            fname: self.fname.clone(),
            lname: self.lname.clone(),
            address: self.address.clone(),
        }
    }
}

impl Clone for BaseUser {
    fn clone(&self) -> (r: Self)
        ensures
            r == *self,
    {
        BaseUser { fname: self.fname.clone(), lname: self.lname.clone(), address: self.address.clone() }
    }
}

impl Clone for Frame {
    fn clone(&self) -> (r: Self)
        ensures
            r == *self,
    {
        Frame {
            uid: self.uid.clone(),
            datetime: self.datetime.clone(),
            temp: self.temp,
            ppm: self.ppm,
            light: self.light,
            boiler: self.boiler,
        }
    }
}

impl User {
    /// The names and address of this user.
    pub open spec fn base(self) -> BaseUser {
        BaseUser { fname: self.fname, lname: self.lname, address: self.address }
    }

    /// This user has the names and address of `b` (compared as text).
    pub open spec fn matches_base(self, b: BaseUser) -> bool {
        self.base().same_as(b)
    }
}

impl BaseUser {
    /// The two have the same names and address (compared as text).
    pub open spec fn same_as(self, other: BaseUser) -> bool {
        &&& self.fname@ == other.fname@
        &&& self.lname@ == other.lname@
        &&& self.address@ == other.address@
    }
}

impl UserIn {
    /// The names and address of this account.
    pub open spec fn base(self) -> BaseUser {
        BaseUser { fname: self.fname, lname: self.lname, address: self.address }
    }
}

impl Frame {
    /// The two readings have the same primary key `(uid, datetime)`.
    pub open spec fn same_key(self, other: Frame) -> bool {
        self.uid@ == other.uid@ && self.datetime@ == other.datetime@
    }
}

/// The stored reading made of a received one and its time of arrival.
pub open spec fn frame_of(f: FrameIn, datetime: String) -> Frame {
    Frame { uid: f.uid, datetime, temp: f.temp, ppm: f.ppm, light: f.light, boiler: f.boiler }
}

/// The stored user made of an account, its id and its password hash.
pub open spec fn user_of(form: UserIn, id: String, psk_hash: String) -> User {
    User { id, psk_hash, fname: form.fname, lname: form.lname, address: form.address }
}

} // verus!

//! SAE J2534 status codes and the decisions a pass-thru driver's answers call for.

use vstd::prelude::*;

verus! {

/// A J2534 error status (status 0 is success).
#[allow(non_camel_case_types)]
#[derive(Debug, Copy, Clone, PartialEq, Eq, Structural)]
pub enum PassthruError {
    ERR_NOT_SUPPORTED,
    ERR_INVALID_CHANNEL_ID,
    ERR_INVALID_PROTOCOL_ID,
    ERR_NULL_PARAMETER,
    ERR_INVALID_IOCTL_VALUE,
    ERR_INVALID_FLAGS,
    ERR_FAILED,
    ERR_DEVICE_NOT_CONNECTED,
    ERR_TIMEOUT,
    ERR_INVALID_MSG,
    ERR_INVALID_TIME_INTERVAL,
    ERR_EXCEEDED_LIMIT,
    ERR_INVALID_MSG_ID,
    ERR_DEVICE_IN_USE,
    ERR_INVALID_IOCTL_ID,
    ERR_BUFFER_EMPTY,
    ERR_BUFFER_FULL,
    ERR_BUFFER_OVERFLOW,
    ERR_PIN_INVALID,
    ERR_CHANNEL_IN_USE,
    ERR_MSG_PROTOCOL_ID,
    ERR_INVALID_FILTER_ID,
    ERR_NO_FLOW_CONTROL,
    ERR_NOT_UNIQUE,
    ERR_INVALID_BAUDRATE,
    ERR_INVALID_DEVICE_ID,
}

/// The status code of an error.
pub open spec fn error_code(e: PassthruError) -> u32 {
    match e {
        PassthruError::ERR_NOT_SUPPORTED => 0x01,
        PassthruError::ERR_INVALID_CHANNEL_ID => 0x02,
        PassthruError::ERR_INVALID_PROTOCOL_ID => 0x03,
        PassthruError::ERR_NULL_PARAMETER => 0x04,
        PassthruError::ERR_INVALID_IOCTL_VALUE => 0x05,
        PassthruError::ERR_INVALID_FLAGS => 0x06,
        PassthruError::ERR_FAILED => 0x07,
        PassthruError::ERR_DEVICE_NOT_CONNECTED => 0x08,
        PassthruError::ERR_TIMEOUT => 0x09,
        PassthruError::ERR_INVALID_MSG => 0x0A,
        PassthruError::ERR_INVALID_TIME_INTERVAL => 0x0B,
        PassthruError::ERR_EXCEEDED_LIMIT => 0x0C,
        PassthruError::ERR_INVALID_MSG_ID => 0x0D,
        PassthruError::ERR_DEVICE_IN_USE => 0x0E,
        PassthruError::ERR_INVALID_IOCTL_ID => 0x0F,
        PassthruError::ERR_BUFFER_EMPTY => 0x10,
        PassthruError::ERR_BUFFER_FULL => 0x11,
        PassthruError::ERR_BUFFER_OVERFLOW => 0x12,
        PassthruError::ERR_PIN_INVALID => 0x13,
        PassthruError::ERR_CHANNEL_IN_USE => 0x14,
        PassthruError::ERR_MSG_PROTOCOL_ID => 0x15,
        PassthruError::ERR_INVALID_FILTER_ID => 0x16,
        PassthruError::ERR_NO_FLOW_CONTROL => 0x17,
        PassthruError::ERR_NOT_UNIQUE => 0x18,
        PassthruError::ERR_INVALID_BAUDRATE => 0x19,
        PassthruError::ERR_INVALID_DEVICE_ID => 0x1A,
    }
}

/// The error a status code stands for, for the codes 0x01 to 0x1A.
pub open spec fn error_of_code(code: u32) -> Option<PassthruError> {
    if code == 0x01 { Some(PassthruError::ERR_NOT_SUPPORTED) }
    else if code == 0x02 { Some(PassthruError::ERR_INVALID_CHANNEL_ID) }
    else if code == 0x03 { Some(PassthruError::ERR_INVALID_PROTOCOL_ID) }
    else if code == 0x04 { Some(PassthruError::ERR_NULL_PARAMETER) }
    else if code == 0x05 { Some(PassthruError::ERR_INVALID_IOCTL_VALUE) }
    else if code == 0x06 { Some(PassthruError::ERR_INVALID_FLAGS) }
    else if code == 0x07 { Some(PassthruError::ERR_FAILED) }
    else if code == 0x08 { Some(PassthruError::ERR_DEVICE_NOT_CONNECTED) }
    else if code == 0x09 { Some(PassthruError::ERR_TIMEOUT) }
    else if code == 0x0A { Some(PassthruError::ERR_INVALID_MSG) }
    else if code == 0x0B { Some(PassthruError::ERR_INVALID_TIME_INTERVAL) }
    else if code == 0x0C { Some(PassthruError::ERR_EXCEEDED_LIMIT) }
    else if code == 0x0D { Some(PassthruError::ERR_INVALID_MSG_ID) }
    else if code == 0x0E { Some(PassthruError::ERR_DEVICE_IN_USE) }
    else if code == 0x0F { Some(PassthruError::ERR_INVALID_IOCTL_ID) }
    else if code == 0x10 { Some(PassthruError::ERR_BUFFER_EMPTY) }
    else if code == 0x11 { Some(PassthruError::ERR_BUFFER_FULL) }
    else if code == 0x12 { Some(PassthruError::ERR_BUFFER_OVERFLOW) }
    else if code == 0x13 { Some(PassthruError::ERR_PIN_INVALID) }
    else if code == 0x14 { Some(PassthruError::ERR_CHANNEL_IN_USE) }
    else if code == 0x15 { Some(PassthruError::ERR_MSG_PROTOCOL_ID) }
    else if code == 0x16 { Some(PassthruError::ERR_INVALID_FILTER_ID) }
    else if code == 0x17 { Some(PassthruError::ERR_NO_FLOW_CONTROL) }
    else if code == 0x18 { Some(PassthruError::ERR_NOT_UNIQUE) }
    else if code == 0x19 { Some(PassthruError::ERR_INVALID_BAUDRATE) }
    else if code == 0x1A { Some(PassthruError::ERR_INVALID_DEVICE_ID) }
    else { None }
}

/// Every error has its own code, and the code reads back as the error.
pub proof fn lemma_error_code_round_trip(e: PassthruError, code: u32)
    ensures
        error_of_code(error_code(e)) == Some(e),
        error_of_code(code) matches Some(f) ==> error_code(f) == code,
{
}

impl PassthruError {
    /// The status code of the error.
    pub fn to_raw(&self) -> (r: u32)
        ensures
            r == error_code(*self),
    {
        match self {
            PassthruError::ERR_NOT_SUPPORTED => 0x01,
            PassthruError::ERR_INVALID_CHANNEL_ID => 0x02,
            PassthruError::ERR_INVALID_PROTOCOL_ID => 0x03,
            PassthruError::ERR_NULL_PARAMETER => 0x04,
            PassthruError::ERR_INVALID_IOCTL_VALUE => 0x05,
            PassthruError::ERR_INVALID_FLAGS => 0x06,
            PassthruError::ERR_FAILED => 0x07,
            PassthruError::ERR_DEVICE_NOT_CONNECTED => 0x08,
            PassthruError::ERR_TIMEOUT => 0x09,
            PassthruError::ERR_INVALID_MSG => 0x0A,
            PassthruError::ERR_INVALID_TIME_INTERVAL => 0x0B,
            PassthruError::ERR_EXCEEDED_LIMIT => 0x0C,
            PassthruError::ERR_INVALID_MSG_ID => 0x0D,
            PassthruError::ERR_DEVICE_IN_USE => 0x0E,
            PassthruError::ERR_INVALID_IOCTL_ID => 0x0F,
            PassthruError::ERR_BUFFER_EMPTY => 0x10,
            PassthruError::ERR_BUFFER_FULL => 0x11,
            PassthruError::ERR_BUFFER_OVERFLOW => 0x12,
            PassthruError::ERR_PIN_INVALID => 0x13,
            PassthruError::ERR_CHANNEL_IN_USE => 0x14,
            PassthruError::ERR_MSG_PROTOCOL_ID => 0x15,
            PassthruError::ERR_INVALID_FILTER_ID => 0x16,
            PassthruError::ERR_NO_FLOW_CONTROL => 0x17,
            PassthruError::ERR_NOT_UNIQUE => 0x18,
            PassthruError::ERR_INVALID_BAUDRATE => 0x19,
            PassthruError::ERR_INVALID_DEVICE_ID => 0x1A,
        }
    }

    /// The error a status code stands for, if it is one.
    pub fn from_raw(code: u32) -> (r: Option<Self>)
        ensures
            r == error_of_code(code),
    {
        match code {
            0x01 => Some(PassthruError::ERR_NOT_SUPPORTED),
            0x02 => Some(PassthruError::ERR_INVALID_CHANNEL_ID),
            0x03 => Some(PassthruError::ERR_INVALID_PROTOCOL_ID),
            0x04 => Some(PassthruError::ERR_NULL_PARAMETER),
            0x05 => Some(PassthruError::ERR_INVALID_IOCTL_VALUE),
            0x06 => Some(PassthruError::ERR_INVALID_FLAGS),
            0x07 => Some(PassthruError::ERR_FAILED),
            0x08 => Some(PassthruError::ERR_DEVICE_NOT_CONNECTED),
            0x09 => Some(PassthruError::ERR_TIMEOUT),
            0x0A => Some(PassthruError::ERR_INVALID_MSG),
            0x0B => Some(PassthruError::ERR_INVALID_TIME_INTERVAL),
            0x0C => Some(PassthruError::ERR_EXCEEDED_LIMIT),
            0x0D => Some(PassthruError::ERR_INVALID_MSG_ID),
            0x0E => Some(PassthruError::ERR_DEVICE_IN_USE),
            0x0F => Some(PassthruError::ERR_INVALID_IOCTL_ID),
            0x10 => Some(PassthruError::ERR_BUFFER_EMPTY),
            0x11 => Some(PassthruError::ERR_BUFFER_FULL),
            0x12 => Some(PassthruError::ERR_BUFFER_OVERFLOW),
            0x13 => Some(PassthruError::ERR_PIN_INVALID),
            0x14 => Some(PassthruError::ERR_CHANNEL_IN_USE),
            0x15 => Some(PassthruError::ERR_MSG_PROTOCOL_ID),
            0x16 => Some(PassthruError::ERR_INVALID_FILTER_ID),
            0x17 => Some(PassthruError::ERR_NO_FLOW_CONTROL),
            0x18 => Some(PassthruError::ERR_NOT_UNIQUE),
            0x19 => Some(PassthruError::ERR_INVALID_BAUDRATE),
            0x1A => Some(PassthruError::ERR_INVALID_DEVICE_ID),
            _ => None,
        }
    }
}

/// A status a driver can return: success or one of the J2534 errors.
pub open spec fn known_status(res: i32) -> bool {
    0 <= res <= 0x1A
}

/// The outcome of a driver call: success for status 0, otherwise its error.
pub fn status_result(res: i32) -> (r: Result<(), PassthruError>)
    requires
        known_status(res),
    ensures
        res == 0 ==> r is Ok,
        res != 0 ==> r == Err::<(), PassthruError>(error_of_code(res as u32)->Some_0),
{
    if res == 0 {
        Ok(())
    } else {
        match PassthruError::from_raw(res as u32) {
            Some(e) => Err(e),
            None => {
                proof { assert(false); }
                Ok(())
            },
        }
    }
}

/// How many of the `max_msgs` buffers a read filled, from the driver's status and the count
/// it reported: a read that stopped on an empty buffer after some messages succeeded.
pub fn read_count(res: i32, count: u32, max_msgs: u32) -> (r: Result<u32, PassthruError>)
    requires
        known_status(res),
    ensures
        (res == 0 || (res == 0x10 && count != 0)) ==> r == Ok::<u32, PassthruError>(
            if count < max_msgs { count } else { max_msgs }),
        !(res == 0 || (res == 0x10 && count != 0)) ==> r == Err::<u32, PassthruError>(error_of_code(res as u32)->Some_0),
{
    let kept = if count < max_msgs { count } else { max_msgs };
    if res == 0 || (res == 0x10 && count != 0) {
        Ok(kept)
    } else {
        match status_result(res) {
            Err(e) => Err(e),
            Ok(_) => Ok(kept),
        }
    }
}

/// The filter type that needs a flow-control message.
pub const FLOW_CONTROL_FILTER: u32 = 3;

/// A flow-control filter needs its flow-control message; starting one without it fails
/// before the driver is asked.
pub fn check_filter_request(filter_type: u32, has_flow_control: bool) -> (r: Result<(), PassthruError>)
    ensures
        (filter_type == FLOW_CONTROL_FILTER && !has_flow_control) ==> r == Err::<(), PassthruError>(PassthruError::ERR_INVALID_FILTER_ID),
        !(filter_type == FLOW_CONTROL_FILTER && !has_flow_control) ==> r is Ok,
{
    if filter_type == FLOW_CONTROL_FILTER && !has_flow_control {
        Err(PassthruError::ERR_INVALID_FILTER_ID)
    } else {
        Ok(())
    }
}

} // verus!

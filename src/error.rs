//! Status codes that the engine reports.
use vstd::prelude::*;

verus! {

/// Why the authentication server refused an access token.
#[allow(non_camel_case_types)]
#[derive(Clone, Copy, Debug, PartialEq, Eq, Structural)]
pub enum AccessTokenError {
    ALREADY_USED,
    CLAIMS_MISMATCH,
    EXPIRED,
    INTERNAL_ERROR,
    INVALID_SIGNATURE,
    ISSUER_MISMATCH,
    MALFORMED,
    SERVICE_UNAVAILABLE,
}

impl AccessTokenError {
    /// The numeric code of this status.
    pub open spec fn spec_code(self) -> i32 {
        match self {
            AccessTokenError::ALREADY_USED => 20120,
            AccessTokenError::CLAIMS_MISMATCH => 20123,
            AccessTokenError::EXPIRED => 20121,
            AccessTokenError::INTERNAL_ERROR => 20125,
            AccessTokenError::INVALID_SIGNATURE => 20122,
            AccessTokenError::ISSUER_MISMATCH => 20128,
            AccessTokenError::MALFORMED => 20124,
            AccessTokenError::SERVICE_UNAVAILABLE => 20127,
        }
    }

    /// The numeric code of this status.
    pub fn code(&self) -> (r: i32)
        ensures
            r == self.spec_code(),
    {
        match self {
            AccessTokenError::ALREADY_USED => 20120,
            AccessTokenError::CLAIMS_MISMATCH => 20123,
            AccessTokenError::EXPIRED => 20121,
            AccessTokenError::INTERNAL_ERROR => 20125,
            AccessTokenError::INVALID_SIGNATURE => 20122,
            AccessTokenError::ISSUER_MISMATCH => 20128,
            AccessTokenError::MALFORMED => 20124,
            AccessTokenError::SERVICE_UNAVAILABLE => 20127,
        }
    }
}

/// Status codes of engine operations.
#[allow(non_camel_case_types)]
#[derive(Clone, Copy, Debug, PartialEq, Eq, Structural)]
pub enum VivoxError {
    ACCOUNT_MISCONFIGURED,
    ALREADY_EXIST,
    ALREADY_INITIALIZED,
    ALREADY_LOGGED_IN,
    ALREADY_LOGGED_OUT,
    BUFSIZE,
    CALL_CREATION_FAILED,
    CALL_TERMINATED_BAN,
    CALL_TERMINATED_BY_SERVER,
    CALL_TERMINATED_KICK,
    CALL_TERMINATED_NO_ANSWER_LOCAL,
    CALL_TERMINATED_NO_RTP_RXED,
    CAPACITY_EXCEEDED,
    CAPTURE_DEVICE_IN_USE,
    CHANNEL_URI_REQUIRED,
    CHANNEL_URI_TOO_LONG,
    CROSS_DOMAIN_LOGINS_DISABLED,
    DEPRECATED,
    FAILED,
    FAILED_TO_CONNECT_TO_SERVER,
    FAILED_TO_CONNECT_TO_VOICE_SERVICE,
    FAILED_TO_SEND_REQUEST_TO_VOICE_SERVICE,
    FEATURE_DISABLED,
    FILE_CORRUPT,
    FILE_OPEN_FAILED,
    FILE_WRITE_FAILED,
    FILE_WRITE_FAILED_REACHED_MAX_FILESIZE,
    HANDLE_ALREADY_TAKEN,
    HANDLE_IS_RESERVED,
    INSUFFICIENT_PRIVILEGE,
    INVALID_APP_TOKEN,
    INVALID_ARGUMENT,
    INVALID_AUTH_TOKEN,
    INVALID_CAPTURE_DEVICE_FOR_REQUESTED_OPERATION,
    INVALID_CAPTURE_DEVICE_SPECIFIER,
    INVALID_SDK_HANDLE,
    INVALID_SESSION_STATE,
    INVALID_SUBSCRIPTION_RULE_TYPE,
    INVALID_USERNAME_OR_PASSWORD,
    INVALID_XML,
    LOGIN_FAILED,
    LOOP_MODE_RECORDING_NOT_ENABLED,
    MAX_NUM_OF_CALLS_EXCEEDED,
    MAX_CONNECTOR_LIMIT_EXCEEDED,
    MAX_HTTP_DATA_RESPONSE_SIZE_EXCEEDED,
    MAX_LOGINS_PER_USER_EXCEEDED,
    MAX_PLAYBACK_SESSIONGROUPS_EXCEEDED,
    MAX_SESSION_LIMIT_EXCEEDED,
    MEDIA_DISCONNECT_NOT_ALLOWED,
    NETWORK_ADDRESS_CHANGE,
    NETWORK_DOWN,
    NOT_IMPL,
    NOT_INITIALIZED,
    NOT_LOGGED_IN,
    NOT_UNINITIALIZED_YET,
    NO_CAPTURE_DEVICES_FOUND,
    NO_EXIST,
    NO_MESSAGE_AVAILABLE,
    NO_MORE_FRAMES,
    NO_RENDER_DEVICES_FOUND,
    NO_SESSION_PORTS_AVAILABLE,
    NO_SUCH_SESSION,
    NO_XLSP_CONFIGURED,
    POWER_STATE_CHANGE,
    PRELOGIN_INFO_NOT_RETURNED,
    RECORDING_ALREADY_ACTIVE,
    RECORDING_LOOP_BUFFER_EMPTY,
    RENDER_CONTEXT_DOES_NOT_EXIST,
    RENDER_DEVICE_DOES_NOT_EXIST,
    RENDER_DEVICE_IN_USE,
    RENDER_SOURCE_DOES_NOT_EXIST,
    REQUESTCONTEXT_NOT_FOUND,
    REQUEST_CANCELED,
    REQUEST_CANCELLED,
    REQUEST_NOT_SUPPORTED,
    REQUEST_TYPE_NOT_SUPPORTED,
    RTP_SESSION_SOCKET_ERROR,
    SESSIONGROUP_NOT_FOUND,
    SESSIONGROUP_TRANSMIT_NOT_ALLOWED,
    SESSION_CHANNEL_TEXT_DENIED,
    SESSION_CREATE_PENDING,
    SESSION_DOES_NOT_HAVE_AUDIO,
    SESSION_DOES_NOT_HAVE_TEXT,
    SESSION_IS_NOT_3D,
    SESSION_MAX,
    SESSION_MEDIA_CONNECTION_FAILED,
    SESSION_MSG_BUILD_FAILED,
    SESSION_MSG_CONTENT_TYPE_FAILED,
    SESSION_MUST_HAVE_MEDIA,
    SESSION_TERMINATE_PENDING,
    SESSION_TEXT_DENIED,
    SESSION_TEXT_DISABLED,
    SIP_BACKEND_REQUIRED,
    SIZE_LIMIT_REACHED,
    STREAM_READ_FAILED,
    SUBSCRIPTION_NOT_FOUND,
    SUCCESS,
    TERMINATE_SESSION_NOT_FOUND,
    TEXT_CONNECT_NOT_ALLOWED,
    TEXT_DISABLED,
    TEXT_DISCONNECT_NOT_ALLOWED,
    UNABLE_TO_OPEN_CAPTURE_DEVICE,
    VOICE_FONT_NOT_FOUND,
    WRONG_CONNECTOR,
    XMPP_BACKEND_REQUIRED,
    XNETCONECT_FAILED,
}

impl VivoxError {
    /// The numeric code of this status.
    pub open spec fn spec_code(self) -> i32 {
        match self {
            VivoxError::ACCOUNT_MISCONFIGURED => 1059,
            VivoxError::ALREADY_EXIST => 1101,
            VivoxError::ALREADY_INITIALIZED => 1085,
            VivoxError::ALREADY_LOGGED_IN => 1005,
            VivoxError::ALREADY_LOGGED_OUT => 1006,
            VivoxError::BUFSIZE => 1042,
            VivoxError::CALL_CREATION_FAILED => 1057,
            VivoxError::CALL_TERMINATED_BAN => 1098,
            VivoxError::CALL_TERMINATED_BY_SERVER => 1100,
            VivoxError::CALL_TERMINATED_KICK => 1099,
            VivoxError::CALL_TERMINATED_NO_ANSWER_LOCAL => 1096,
            VivoxError::CALL_TERMINATED_NO_RTP_RXED => 1095,
            VivoxError::CAPACITY_EXCEEDED => 1084,
            VivoxError::CAPTURE_DEVICE_IN_USE => 7006,
            VivoxError::CHANNEL_URI_REQUIRED => 1076,
            VivoxError::CHANNEL_URI_TOO_LONG => 1097,
            VivoxError::CROSS_DOMAIN_LOGINS_DISABLED => 1081,
            VivoxError::DEPRECATED => 1106,
            VivoxError::FAILED => 1004,
            VivoxError::FAILED_TO_CONNECT_TO_SERVER => 10007,
            VivoxError::FAILED_TO_CONNECT_TO_VOICE_SERVICE => 1072,
            VivoxError::FAILED_TO_SEND_REQUEST_TO_VOICE_SERVICE => 1073,
            VivoxError::FEATURE_DISABLED => 1102,
            VivoxError::FILE_CORRUPT => 1044,
            VivoxError::FILE_OPEN_FAILED => 1043,
            VivoxError::FILE_WRITE_FAILED => 1045,
            VivoxError::FILE_WRITE_FAILED_REACHED_MAX_FILESIZE => 1049,
            VivoxError::HANDLE_ALREADY_TAKEN => 1090,
            VivoxError::HANDLE_IS_RESERVED => 1091,
            VivoxError::INSUFFICIENT_PRIVILEGE => 1010,
            VivoxError::INVALID_APP_TOKEN => 1083,
            VivoxError::INVALID_ARGUMENT => 1008,
            VivoxError::INVALID_AUTH_TOKEN => 1082,
            VivoxError::INVALID_CAPTURE_DEVICE_FOR_REQUESTED_OPERATION => 1077,
            VivoxError::INVALID_CAPTURE_DEVICE_SPECIFIER => 7005,
            VivoxError::INVALID_SDK_HANDLE => 1071,
            VivoxError::INVALID_SESSION_STATE => 1019,
            VivoxError::INVALID_SUBSCRIPTION_RULE_TYPE => 1038,
            VivoxError::INVALID_USERNAME_OR_PASSWORD => 1009,
            VivoxError::INVALID_XML => 1000,
            VivoxError::LOGIN_FAILED => 1014,
            VivoxError::LOOP_MODE_RECORDING_NOT_ENABLED => 1078,
            VivoxError::MAX_NUM_OF_CALLS_EXCEEDED => 1060,
            VivoxError::MAX_CONNECTOR_LIMIT_EXCEEDED => 1002,
            VivoxError::MAX_HTTP_DATA_RESPONSE_SIZE_EXCEEDED => 1075,
            VivoxError::MAX_LOGINS_PER_USER_EXCEEDED => 1074,
            VivoxError::MAX_PLAYBACK_SESSIONGROUPS_EXCEEDED => 1051,
            VivoxError::MAX_SESSION_LIMIT_EXCEEDED => 1003,
            VivoxError::MEDIA_DISCONNECT_NOT_ALLOWED => 1035,
            VivoxError::NETWORK_ADDRESS_CHANGE => 1087,
            VivoxError::NETWORK_DOWN => 1088,
            VivoxError::NOT_IMPL => 1017,
            VivoxError::NOT_INITIALIZED => 1012,
            VivoxError::NOT_LOGGED_IN => 1007,
            VivoxError::NOT_UNINITIALIZED_YET => 1086,
            VivoxError::NO_CAPTURE_DEVICES_FOUND => 7002,
            VivoxError::NO_EXIST => 1001,
            VivoxError::NO_MESSAGE_AVAILABLE => -1i32,
            VivoxError::NO_MORE_FRAMES => 1047,
            VivoxError::NO_RENDER_DEVICES_FOUND => 7001,
            VivoxError::NO_SESSION_PORTS_AVAILABLE => 1061,
            VivoxError::NO_SUCH_SESSION => 1011,
            VivoxError::NO_XLSP_CONFIGURED => 1092,
            VivoxError::POWER_STATE_CHANGE => 1089,
            VivoxError::PRELOGIN_INFO_NOT_RETURNED => 1036,
            VivoxError::RECORDING_ALREADY_ACTIVE => 1068,
            VivoxError::RECORDING_LOOP_BUFFER_EMPTY => 1069,
            VivoxError::RENDER_CONTEXT_DOES_NOT_EXIST => 1065,
            VivoxError::RENDER_DEVICE_DOES_NOT_EXIST => 1064,
            VivoxError::RENDER_DEVICE_IN_USE => 7004,
            VivoxError::RENDER_SOURCE_DOES_NOT_EXIST => 1067,
            VivoxError::REQUESTCONTEXT_NOT_FOUND => 1013,
            VivoxError::REQUEST_CANCELED => 1094,
            VivoxError::REQUEST_CANCELLED => 1018,
            VivoxError::REQUEST_NOT_SUPPORTED => 1033,
            VivoxError::REQUEST_TYPE_NOT_SUPPORTED => 1032,
            VivoxError::RTP_SESSION_SOCKET_ERROR => 1104,
            VivoxError::SESSIONGROUP_NOT_FOUND => 1031,
            VivoxError::SESSIONGROUP_TRANSMIT_NOT_ALLOWED => 1056,
            VivoxError::SESSION_CHANNEL_TEXT_DENIED => 1022,
            VivoxError::SESSION_CREATE_PENDING => 1020,
            VivoxError::SESSION_DOES_NOT_HAVE_AUDIO => 1028,
            VivoxError::SESSION_DOES_NOT_HAVE_TEXT => 1027,
            VivoxError::SESSION_IS_NOT_3D => 1030,
            VivoxError::SESSION_MAX => 1015,
            VivoxError::SESSION_MEDIA_CONNECTION_FAILED => 1026,
            VivoxError::SESSION_MSG_BUILD_FAILED => 1024,
            VivoxError::SESSION_MSG_CONTENT_TYPE_FAILED => 1025,
            VivoxError::SESSION_MUST_HAVE_MEDIA => 1029,
            VivoxError::SESSION_TERMINATE_PENDING => 1021,
            VivoxError::SESSION_TEXT_DENIED => 1023,
            VivoxError::SESSION_TEXT_DISABLED => 1055,
            VivoxError::SIP_BACKEND_REQUIRED => 1105,
            VivoxError::SIZE_LIMIT_REACHED => 1103,
            VivoxError::STREAM_READ_FAILED => 1070,
            VivoxError::SUBSCRIPTION_NOT_FOUND => 1037,
            VivoxError::SUCCESS => 0,
            VivoxError::TERMINATE_SESSION_NOT_FOUND => 1050,
            VivoxError::TEXT_CONNECT_NOT_ALLOWED => 1053,
            VivoxError::TEXT_DISABLED => 1079,
            VivoxError::TEXT_DISCONNECT_NOT_ALLOWED => 1052,
            VivoxError::UNABLE_TO_OPEN_CAPTURE_DEVICE => 7009,
            VivoxError::VOICE_FONT_NOT_FOUND => 1080,
            VivoxError::WRONG_CONNECTOR => 1016,
            VivoxError::XMPP_BACKEND_REQUIRED => 5023,
            VivoxError::XNETCONECT_FAILED => 1093,
        }
    }

    /// The numeric code of this status.
    pub fn code(&self) -> (r: i32)
        ensures
            r == self.spec_code(),
    {
        match self {
            VivoxError::ACCOUNT_MISCONFIGURED => 1059,
            VivoxError::ALREADY_EXIST => 1101,
            VivoxError::ALREADY_INITIALIZED => 1085,
            VivoxError::ALREADY_LOGGED_IN => 1005,
            VivoxError::ALREADY_LOGGED_OUT => 1006,
            VivoxError::BUFSIZE => 1042,
            VivoxError::CALL_CREATION_FAILED => 1057,
            VivoxError::CALL_TERMINATED_BAN => 1098,
            VivoxError::CALL_TERMINATED_BY_SERVER => 1100,
            VivoxError::CALL_TERMINATED_KICK => 1099,
            VivoxError::CALL_TERMINATED_NO_ANSWER_LOCAL => 1096,
            VivoxError::CALL_TERMINATED_NO_RTP_RXED => 1095,
            VivoxError::CAPACITY_EXCEEDED => 1084,
            VivoxError::CAPTURE_DEVICE_IN_USE => 7006,
            VivoxError::CHANNEL_URI_REQUIRED => 1076,
            VivoxError::CHANNEL_URI_TOO_LONG => 1097,
            VivoxError::CROSS_DOMAIN_LOGINS_DISABLED => 1081,
            VivoxError::DEPRECATED => 1106,
            VivoxError::FAILED => 1004,
            VivoxError::FAILED_TO_CONNECT_TO_SERVER => 10007,
            VivoxError::FAILED_TO_CONNECT_TO_VOICE_SERVICE => 1072,
            VivoxError::FAILED_TO_SEND_REQUEST_TO_VOICE_SERVICE => 1073,
            VivoxError::FEATURE_DISABLED => 1102,
            VivoxError::FILE_CORRUPT => 1044,
            VivoxError::FILE_OPEN_FAILED => 1043,
            VivoxError::FILE_WRITE_FAILED => 1045,
            VivoxError::FILE_WRITE_FAILED_REACHED_MAX_FILESIZE => 1049,
            VivoxError::HANDLE_ALREADY_TAKEN => 1090,
            VivoxError::HANDLE_IS_RESERVED => 1091,
            VivoxError::INSUFFICIENT_PRIVILEGE => 1010,
            VivoxError::INVALID_APP_TOKEN => 1083,
            VivoxError::INVALID_ARGUMENT => 1008,
            VivoxError::INVALID_AUTH_TOKEN => 1082,
            VivoxError::INVALID_CAPTURE_DEVICE_FOR_REQUESTED_OPERATION => 1077,
            VivoxError::INVALID_CAPTURE_DEVICE_SPECIFIER => 7005,
            VivoxError::INVALID_SDK_HANDLE => 1071,
            VivoxError::INVALID_SESSION_STATE => 1019,
            VivoxError::INVALID_SUBSCRIPTION_RULE_TYPE => 1038,
            VivoxError::INVALID_USERNAME_OR_PASSWORD => 1009,
            VivoxError::INVALID_XML => 1000,
            VivoxError::LOGIN_FAILED => 1014,
            VivoxError::LOOP_MODE_RECORDING_NOT_ENABLED => 1078,
            VivoxError::MAX_NUM_OF_CALLS_EXCEEDED => 1060,
            VivoxError::MAX_CONNECTOR_LIMIT_EXCEEDED => 1002,
            VivoxError::MAX_HTTP_DATA_RESPONSE_SIZE_EXCEEDED => 1075,
            VivoxError::MAX_LOGINS_PER_USER_EXCEEDED => 1074,
            VivoxError::MAX_PLAYBACK_SESSIONGROUPS_EXCEEDED => 1051,
            VivoxError::MAX_SESSION_LIMIT_EXCEEDED => 1003,
            VivoxError::MEDIA_DISCONNECT_NOT_ALLOWED => 1035,
            VivoxError::NETWORK_ADDRESS_CHANGE => 1087,
            VivoxError::NETWORK_DOWN => 1088,
            VivoxError::NOT_IMPL => 1017,
            VivoxError::NOT_INITIALIZED => 1012,
            VivoxError::NOT_LOGGED_IN => 1007,
            VivoxError::NOT_UNINITIALIZED_YET => 1086,
            VivoxError::NO_CAPTURE_DEVICES_FOUND => 7002,
            VivoxError::NO_EXIST => 1001,
            VivoxError::NO_MESSAGE_AVAILABLE => -1i32,
            VivoxError::NO_MORE_FRAMES => 1047,
            VivoxError::NO_RENDER_DEVICES_FOUND => 7001,
            VivoxError::NO_SESSION_PORTS_AVAILABLE => 1061,
            VivoxError::NO_SUCH_SESSION => 1011,
            VivoxError::NO_XLSP_CONFIGURED => 1092,
            VivoxError::POWER_STATE_CHANGE => 1089,
            VivoxError::PRELOGIN_INFO_NOT_RETURNED => 1036,
            VivoxError::RECORDING_ALREADY_ACTIVE => 1068,
            VivoxError::RECORDING_LOOP_BUFFER_EMPTY => 1069,
            VivoxError::RENDER_CONTEXT_DOES_NOT_EXIST => 1065,
            VivoxError::RENDER_DEVICE_DOES_NOT_EXIST => 1064,
            VivoxError::RENDER_DEVICE_IN_USE => 7004,
            VivoxError::RENDER_SOURCE_DOES_NOT_EXIST => 1067,
            VivoxError::REQUESTCONTEXT_NOT_FOUND => 1013,
            VivoxError::REQUEST_CANCELED => 1094,
            VivoxError::REQUEST_CANCELLED => 1018,
            VivoxError::REQUEST_NOT_SUPPORTED => 1033,
            VivoxError::REQUEST_TYPE_NOT_SUPPORTED => 1032,
            VivoxError::RTP_SESSION_SOCKET_ERROR => 1104,
            VivoxError::SESSIONGROUP_NOT_FOUND => 1031,
            VivoxError::SESSIONGROUP_TRANSMIT_NOT_ALLOWED => 1056,
            VivoxError::SESSION_CHANNEL_TEXT_DENIED => 1022,
            VivoxError::SESSION_CREATE_PENDING => 1020,
            VivoxError::SESSION_DOES_NOT_HAVE_AUDIO => 1028,
            VivoxError::SESSION_DOES_NOT_HAVE_TEXT => 1027,
            VivoxError::SESSION_IS_NOT_3D => 1030,
            VivoxError::SESSION_MAX => 1015,
            VivoxError::SESSION_MEDIA_CONNECTION_FAILED => 1026,
            VivoxError::SESSION_MSG_BUILD_FAILED => 1024,
            VivoxError::SESSION_MSG_CONTENT_TYPE_FAILED => 1025,
            VivoxError::SESSION_MUST_HAVE_MEDIA => 1029,
            VivoxError::SESSION_TERMINATE_PENDING => 1021,
            VivoxError::SESSION_TEXT_DENIED => 1023,
            VivoxError::SESSION_TEXT_DISABLED => 1055,
            VivoxError::SIP_BACKEND_REQUIRED => 1105,
            VivoxError::SIZE_LIMIT_REACHED => 1103,
            VivoxError::STREAM_READ_FAILED => 1070,
            VivoxError::SUBSCRIPTION_NOT_FOUND => 1037,
            VivoxError::SUCCESS => 0,
            VivoxError::TERMINATE_SESSION_NOT_FOUND => 1050,
            VivoxError::TEXT_CONNECT_NOT_ALLOWED => 1053,
            VivoxError::TEXT_DISABLED => 1079,
            VivoxError::TEXT_DISCONNECT_NOT_ALLOWED => 1052,
            VivoxError::UNABLE_TO_OPEN_CAPTURE_DEVICE => 7009,
            VivoxError::VOICE_FONT_NOT_FOUND => 1080,
            VivoxError::WRONG_CONNECTOR => 1016,
            VivoxError::XMPP_BACKEND_REQUIRED => 5023,
            VivoxError::XNETCONECT_FAILED => 1093,
        }
    }
}

} // verus!

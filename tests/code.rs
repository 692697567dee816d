use modbus_core::code::{ExceptionCode, FunctionCode, PublicFunctionCode};
use modbus_core::error::ModbusApplicationError;

#[test]
fn test_model_code_function_code_from() {
    assert_eq!(
        FunctionCode::from(0x01),
        FunctionCode::Public(PublicFunctionCode::ReadCoils)
    );
    assert_eq!(FunctionCode::from(0x0A), FunctionCode::UserDefined(0x0A));
}

#[test]
fn test_model_code_public_function_code_try_from() {
    assert_eq!(
        PublicFunctionCode::try_from(0x01).unwrap(),
        PublicFunctionCode::ReadCoils
    );
    assert!(PublicFunctionCode::try_from(0x80).is_err());
}

#[test]
fn test_model_code_exception_code_try_from() {
    assert_eq!(
        ExceptionCode::try_from(0x01).unwrap(),
        ExceptionCode::IllegalFunction
    );
    assert!(ExceptionCode::try_from(0x80).is_err());
}

#[test]
fn function_code_masks_exception_bit() {
    assert_eq!(
        FunctionCode::from(0x83),
        FunctionCode::Public(PublicFunctionCode::ReadHoldingRegisters)
    );
    assert_eq!(FunctionCode::from(0xC1), FunctionCode::UserDefined(0x41));
    assert_eq!(
        FunctionCode::from(0x2B),
        FunctionCode::Public(PublicFunctionCode::EncapsulatedInterfaceTransport)
    );
}

#[test]
fn codes_write_back_as_their_bytes() {
    assert_eq!(u8::from(PublicFunctionCode::ReadFifoQueue), 0x18);
    assert_eq!(u8::from(FunctionCode::UserDefined(0x41)), 0x41);
    assert_eq!(
        u8::from(FunctionCode::Public(PublicFunctionCode::MaskWriteRegister)),
        0x16
    );
    assert_eq!(
        u8::from(ExceptionCode::GatewayTargetDeviceFailedToRespond),
        0x0B
    );
}

#[test]
fn undefined_codes_carry_the_byte() {
    assert_eq!(
        PublicFunctionCode::try_from(0x09),
        Err(ModbusApplicationError::UndefinedFunctionCode(0x09))
    );
    assert_eq!(
        ExceptionCode::try_from(0x07),
        Err(ModbusApplicationError::UndefinedExceptionCode(0x07))
    );
    assert_eq!(
        ExceptionCode::try_from(0x0A),
        Ok(ExceptionCode::GatewayPathUnavailable)
    );
}

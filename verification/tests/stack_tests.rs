//! Tests of the call stack.

use chip8::emulator::stack::{Stack, STACK_SIZE};
use chip8::error::EmulatorError;

#[test]
fn test_stack_creation() {
    let stack = Stack::new();
    
    assert!(stack.is_empty());
    assert!(!stack.is_full());
    assert_eq!(stack.depth(), 0);
    assert_eq!(stack.remaining_capacity(), STACK_SIZE);
}

#[test]
fn test_push_pop() {
    let mut stack = Stack::new();
    
    // Test push
    stack.push(0x1234).unwrap();
    assert_eq!(stack.depth(), 1);
    assert!(!stack.is_empty());
    
    stack.push(0x5678).unwrap();
    assert_eq!(stack.depth(), 2);
    
    // Test peek
    assert_eq!(stack.peek().unwrap(), 0x5678);
    assert_eq!(stack.depth(), 2); // Peek shouldn't change depth
    
    // Test pop
    assert_eq!(stack.pop().unwrap(), 0x5678);
    assert_eq!(stack.depth(), 1);
    
    assert_eq!(stack.pop().unwrap(), 0x1234);
    assert_eq!(stack.depth(), 0);
    assert!(stack.is_empty());
}

#[test]
fn test_stack_overflow() {
    let mut stack = Stack::new();
    
    // Fill the stack to capacity
    for i in 0..STACK_SIZE {
        stack.push(i as u16).unwrap();
    }
    
    assert!(stack.is_full());
    assert_eq!(stack.remaining_capacity(), 0);
    
    // Try to push one more - should fail
    let result = stack.push(0xFFFF);
    assert!(matches!(result, Err(EmulatorError::StackOverflow)));
}

#[test]
fn test_stack_underflow() {
    let mut stack = Stack::new();
    
    // Try to pop from empty stack
    let result = stack.pop();
    assert!(matches!(result, Err(EmulatorError::StackUnderflow)));
    
    // Try to peek at empty stack
    let result = stack.peek();
    assert!(matches!(result, Err(EmulatorError::StackUnderflow)));
}

#[test]
fn test_stack_reset() {
    let mut stack = Stack::new();
    
    // Add some data
    stack.push(0x1111).unwrap();
    stack.push(0x2222).unwrap();
    stack.push(0x3333).unwrap();
    
    assert_eq!(stack.depth(), 3);
    
    // Reset
    stack.reset();
    
    assert!(stack.is_empty());
    assert_eq!(stack.depth(), 0);
    assert_eq!(stack.remaining_capacity(), STACK_SIZE);
}

#[test]
fn test_stack_contents() {
    let mut stack = Stack::new();
    
    let values = [0x100, 0x200, 0x300, 0x400];
    
    for &value in &values {
        stack.push(value).unwrap();
    }
    
    let contents = stack.get_contents();
    assert_eq!(contents, values);
}

#[test]
fn test_load_values() {
    let mut stack = Stack::new();
    
    let values = [0xABC, 0xDEF, 0x123, 0x456];
    stack.load_values(&values).unwrap();
    
    assert_eq!(stack.depth(), 4);
    assert_eq!(stack.peek().unwrap(), 0x456); // Last value should be on top
    
    // Test that values are in correct order
    assert_eq!(stack.pop().unwrap(), 0x456);
    assert_eq!(stack.pop().unwrap(), 0x123);
    assert_eq!(stack.pop().unwrap(), 0xDEF);
    assert_eq!(stack.pop().unwrap(), 0xABC);
}

#[test]
fn test_load_values_overflow() {
    let mut stack = Stack::new();
    
    // Try to load more values than stack capacity
    let too_many_values: Vec<u16> = (0..STACK_SIZE + 1).map(|i| i as u16).collect();
    let result = stack.load_values(&too_many_values);
    
    assert!(matches!(result, Err(EmulatorError::StackOverflow)));
}

#[test]
fn test_stack_dump() {
    let mut stack = Stack::new();
    
    // Test empty stack dump
    let dump = stack.dump();
    assert_eq!(dump, "Stack: [empty]");
    
    // Test non-empty stack dump
    stack.push(0x200).unwrap();
    stack.push(0x300).unwrap();
    stack.push(0x400).unwrap();
    
    let dump = stack.dump();
    assert!(dump.contains("Stack (depth 3)"));
    assert!(dump.contains("0x200"));
    assert!(dump.contains("0x300"));
    assert!(dump.contains("0x400"));
    assert!(dump.contains("(top)"));
}

#[test]
fn test_iterator() {
    let mut stack = Stack::new();
    
    let values = [0x100, 0x200, 0x300];
    stack.load_values(&values).unwrap();
    
    let collected: Vec<u16> = stack.into_iter().copied().collect();
    assert_eq!(collected, values);
}

#[test]
fn test_lifo_behavior() {
    let mut stack = Stack::new();
    
    // Push values in order
    for i in 1..=5 {
        stack.push(i * 100).unwrap();
    }
    
    // Pop values - should come out in reverse order (LIFO)
    for i in (1..=5).rev() {
        assert_eq!(stack.pop().unwrap(), i * 100);
    }
    
    assert!(stack.is_empty());
}

#[test]
fn test_subroutine_simulation() {
    let mut stack = Stack::new();
    
    // Simulate nested subroutine calls
    let main_addr = 0x200;
    let sub1_addr = 0x300;
    let _sub2_addr = 0x400;
    
    // Call subroutine 1 from main
    stack.push(main_addr + 2).unwrap(); // Return address after call
    
    // Call subroutine 2 from subroutine 1
    stack.push(sub1_addr + 2).unwrap();
    
    assert_eq!(stack.depth(), 2);
    
    // Return from subroutine 2 to subroutine 1
    let return_addr = stack.pop().unwrap();
    assert_eq!(return_addr, sub1_addr + 2);
    
    // Return from subroutine 1 to main
    let return_addr = stack.pop().unwrap();
    assert_eq!(return_addr, main_addr + 2);
    
    assert!(stack.is_empty());
}

#[test]
fn test_max_depth_tracking() {
    let mut stack = Stack::new();
    
    // max_depth_reached returns the current depth
    assert_eq!(stack.max_depth_reached(), 0);
    
    stack.push(0x100).unwrap();
    assert_eq!(stack.max_depth_reached(), 1);
    
    stack.push(0x200).unwrap();
    stack.push(0x300).unwrap();
    assert_eq!(stack.max_depth_reached(), 3);
    
    stack.pop().unwrap();
    assert_eq!(stack.max_depth_reached(), 2);
}
